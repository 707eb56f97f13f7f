//! What every function does, said of its inputs and its results alone.
//!
//! A law here speaks of one function, by what it ensures when it is called on given arguments and
//! returns `r`. It is stated over bytes, numbers and fields, and over what the calls on NVML
//! answer, for all of these.
use crate::bindings::{
    EntryPoint, Handle, NvmlLib, RawBlacklistDeviceInfo, RawHwbcEntry, RawPciInfo, Reply,
};
use crate::bitmasks::InitFlags;
use crate::device::Device;
use crate::enum_wrappers::device::TopologyLevel;
use crate::error::NvmlError;
use crate::event::EventSet;
use crate::nvml::{Platform, NVML};
use crate::struct_wrappers::device::PciInfo;
use crate::struct_wrappers::unit::HwbcEntry;
use crate::struct_wrappers::BlacklistDeviceInfo;
use crate::unit::Unit;
use vstd::prelude::*;
use vstd::string::*;
use vstd::utf8::*;

verus! {

/// The text in `buffer` ends at `end`: at its first zero byte, or with the buffer if it has none.
pub open spec fn ends_at(buffer: Seq<u8>, end: int) -> bool {
    &&& 0 <= end <= buffer.len()
    &&& forall|i: int| 0 <= i < end ==> buffer[i] != 0
    &&& end == buffer.len() || buffer[end] == 0
}

/// `buffer` holds `text`: its UTF-8 bytes are all that stands before the end.
pub open spec fn holds(buffer: Seq<u8>, text: Seq<char>) -> bool {
    exists|end: int| #[trigger] ends_at(buffer, end) && encode_utf8(text) == buffer.take(end)
}

/// `buffer` holds some text.
pub open spec fn holds_a_text(buffer: Seq<u8>) -> bool {
    exists|text: Seq<char>| holds(buffer, text)
}

/// `error` says that `buffer` holds no text, and it holds none.
pub open spec fn holds_no_text(buffer: Seq<u8>, error: NvmlError) -> bool {
    &&& error is Utf8Error
    &&& !holds_a_text(buffer)
    &&& forall|end: int| #[trigger]
        ends_at(buffer, end) ==> error == NvmlError::Utf8Error(
            crate::c_string::utf8_error(buffer.take(end)),
        )
}

/// `r` reports a missing entry point, in the words of the loader.
pub open spec fn tells_missing<T>(r: Result<T, NvmlError>, loader: libloading::Error) -> bool {
    r matches Err(NvmlError::FailedToLoadSymbol(text)) && to_string_from_display_ensures(
        &loader,
        text,
    )
}

/// `r` is the error that `code` stands for.
pub open spec fn fails_with<T>(r: Result<T, NvmlError>, code: u32) -> bool {
    r matches Err(error) && error == crate::error::error_of(code)
}

/// `r` refuses `text` for its first zero byte.
pub open spec fn refuses_zero<T>(r: Result<T, NvmlError>, text: Seq<char>) -> bool {
    r matches Err(NvmlError::NulError(error)) && error.bytes@ == encode_utf8(text)
        && error.nul_position < encode_utf8(text).len() && encode_utf8(
        text,
    )[error.nul_position as int] == 0 && forall|i: int|
        0 <= i < error.nul_position ==> encode_utf8(text)[i] != 0
}

/// `info` has each field of `raw`, and the text in its bus ID.
pub open spec fn has_fields_of(info: PciInfo, raw: RawPciInfo) -> bool {
    &&& info.domain == raw.domain
    &&& info.bus == raw.bus
    &&& info.device == raw.device
    &&& info.pci_device_id == raw.pciDeviceId
    &&& holds(raw.busId@, info.bus_id@)
}

/// Every field of `raw` is that of `info`; the bus ID has its bytes and then only zero bytes.
pub open spec fn is_filled_from(raw: RawPciInfo, info: PciInfo) -> bool {
    let bytes = encode_utf8(info.bus_id@);
    &&& raw.domain == info.domain
    &&& raw.bus == info.bus
    &&& raw.device == info.device
    &&& raw.pciDeviceId == info.pci_device_id
    &&& info.pci_sub_system_id matches Some(id) ==> raw.pciSubSystemId == id
    &&& info.pci_sub_system_id is None ==> raw.pciSubSystemId == 0
    &&& bytes.len() < 32
    &&& forall|i: int| 0 <= i < bytes.len() ==> #[trigger] raw.busId@[i] == bytes[i]
    &&& forall|i: int| bytes.len() <= i < 32 ==> #[trigger] raw.busId@[i] == 0
    &&& forall|i: int| 0 <= i < 16 ==> #[trigger] raw.busIdLegacy@[i] == 0
    &&& holds(raw.busId@, info.bus_id@)
}

/// `r` gives `raw` for `info`, or refuses a bus ID that has a zero byte or more than 31 bytes.
pub open spec fn is_conversion(info: PciInfo, r: Result<RawPciInfo, NvmlError>) -> bool {
    let bytes = encode_utf8(info.bus_id@);
    if bytes.contains(0u8) {
        refuses_zero(r, info.bus_id@)
    } else if bytes.len() > 31 {
        r matches Err(NvmlError::StringTooLong { max_len, actual_len }) && max_len == 32
            && actual_len == bytes.len() + 1
    } else {
        r matches Ok(raw) && is_filled_from(raw, info)
    }
}

/// Where the text in a buffer ends is one place, and there is one.
proof fn end_is_found(buffer: Seq<u8>) -> (end: int)
    ensures
        ends_at(buffer, end),
        forall|other: int| ends_at(buffer, other) ==> other == end,
        crate::c_string::before_nul(buffer) == buffer.take(end),
{
    buffer.index_of_first_ensures(0u8);
    match buffer.index_of_first(0u8) {
        Some(end) => end,
        None => {
            assert forall|i: int| 0 <= i < buffer.len() implies buffer[i] != 0 by {
                assert(!buffer.contains(0u8));
            }
            assert(buffer.take(buffer.len() as int) =~= buffer);
            buffer.len() as int
        },
    }
}

/// A text that was read is the one that the buffer holds, and an error says that it holds none.
proof fn text_is_held(buffer: Seq<u8>, r: Result<String, NvmlError>)
    requires
        crate::c_string::is_text_of(r, buffer),
    ensures
        r matches Ok(text) ==> holds(buffer, text@),
        r matches Err(error) ==> holds_no_text(buffer, error),
{
    let end = end_is_found(buffer);
    let bytes = buffer.take(end);
    if valid_utf8(bytes) {
        decode_utf8_encode_utf8(bytes);
    } else {
        assert forall|text: Seq<char>| !holds(buffer, text) by {
            encode_utf8_valid_utf8(text);
        }
    }
}

/// Where the bytes before the end are UTF-8, some text is held.
proof fn some_text_is_held(buffer: Seq<u8>)
    requires
        valid_utf8(crate::c_string::before_nul(buffer)),
    ensures
        holds_a_text(buffer),
{
    let end = end_is_found(buffer);
    decode_utf8_encode_utf8(buffer.take(end));
    assert(holds(buffer, decode_utf8(buffer.take(end))));
}

/// A C string, whatever follows it, holds its whole text.
pub proof fn c_string_holds_its_text(text: Seq<char>, rest: Seq<u8>)
    requires
        !text.contains('\0'),
    ensures
        holds(encode_utf8(text).push(0u8) + rest, text),
{
    let bytes = encode_utf8(text);
    let buffer = bytes.push(0u8) + rest;
    crate::c_string::zero_bytes_are_zero_characters(text);
    assert forall|i: int| 0 <= i < bytes.len() implies buffer[i] != 0 by {
        assert(buffer[i] == bytes[i]);
        assert(bytes.contains(bytes[i]));
    }
    assert(buffer[bytes.len() as int] == 0);
    assert(ends_at(buffer, bytes.len() as int));
    assert(buffer.take(bytes.len() as int) =~= bytes);
}

/// A buffer holds at most one text.
pub proof fn buffer_holds_one_text(buffer: Seq<u8>, text1: Seq<char>, text2: Seq<char>)
    requires
        holds(buffer, text1),
        holds(buffer, text2),
    ensures
        text1 == text2,
{
    let end = end_is_found(buffer);
    encode_utf8_decode_utf8(text1);
    encode_utf8_decode_utf8(text2);
}

/// The text of a buffer is read whole: the C string of a text at the start of a buffer gives that
/// text, whatever follows; anything else gives the text that is held, or an error if none is.
pub proof fn text_is_read_whole(buffer: &[u8], r: Result<String, NvmlError>)
    requires
        call_ensures(crate::c_string::read_text, (buffer,), r),
    ensures
        r matches Ok(text) ==> holds(buffer@, text@),
        r matches Err(error) ==> holds_no_text(buffer@, error),
        forall|text: Seq<char>, rest: Seq<u8>|
            !text.contains('\0') && buffer@ == #[trigger] (encode_utf8(text).push(0u8) + rest) ==> (
            r matches Ok(read) && read@ == text),
{
    text_is_held(buffer@, r);
    assert forall|text: Seq<char>, rest: Seq<u8>|
        !text.contains('\0') && buffer@ == #[trigger] (encode_utf8(text).push(0u8)
            + rest) implies (r matches Ok(read) && read@ == text) by {
        c_string_holds_its_text(text, rest);
        match r {
            Ok(read) => buffer_holds_one_text(buffer@, read@, text),
            Err(error) => {},
        }
    }
}

/// A text becomes its UTF-8 bytes and one zero byte, or is refused for its first zero byte.
pub proof fn text_is_written_whole(text: &str, r: Result<Vec<u8>, NvmlError>)
    requires
        call_ensures(crate::c_string::c_string, (text,), r),
    ensures
        text@.contains('\0') ==> refuses_zero(r, text@),
        r is Ok <==> !text@.contains('\0'),
        r matches Ok(bytes) ==> bytes@ == encode_utf8(text@).push(0u8),
        r matches Err(error) ==> {
            &&& error matches NvmlError::NulError(refused)
            &&& refused.bytes@ == encode_utf8(text@)
            &&& refused.nul_position < refused.bytes@.len()
            &&& refused.bytes@[refused.nul_position as int] == 0
            &&& forall|i: int| 0 <= i < refused.nul_position ==> refused.bytes@[i] != 0
        },
{
    encode_utf8(text@).index_of_first_ensures(0u8);
    crate::c_string::zero_bytes_are_zero_characters(text@);
}

/// A reply is a success only with the code 0, and then it gives its value; else it gives the
/// error that the code stands for.
pub proof fn reply_is_told_by_its_code<T>(reply: Reply<T>, r: Result<T, NvmlError>)
    requires
        call_ensures(Reply::<T>::into_result, (reply,), r),
    ensures
        reply.code != 0 ==> fails_with(r, reply.code),
        reply.code == 0 ==> r == Ok::<T, NvmlError>(reply.value),
        reply.code != 0 ==> r == Err::<T, NvmlError>(crate::error::error_of(reply.code)),
{
}

/// Each code that NVML has is told by the error of its name, and every other one is unknown.
pub proof fn codes_are_told_by_name(code: u32, r: Result<(), NvmlError>)
    requires
        call_ensures(crate::error::nvml_try, (code,), r),
    ensures
        r is Ok <==> code == 0,
        code != 0 ==> r == Err::<(), NvmlError>(crate::error::error_of(code)),
        code == 1 <==> r == Err::<(), NvmlError>(NvmlError::Uninitialized),
        code == 2 <==> r == Err::<(), NvmlError>(NvmlError::InvalidArg),
        code == 3 <==> r == Err::<(), NvmlError>(NvmlError::NotSupported),
        code == 4 <==> r == Err::<(), NvmlError>(NvmlError::NoPermission),
        code == 5 <==> r == Err::<(), NvmlError>(NvmlError::AlreadyInitialized),
        code == 6 <==> r == Err::<(), NvmlError>(NvmlError::NotFound),
        code == 7 <==> r == Err::<(), NvmlError>(NvmlError::InsufficientSize),
        code == 8 <==> r == Err::<(), NvmlError>(NvmlError::InsufficientPower),
        code == 9 <==> r == Err::<(), NvmlError>(NvmlError::DriverNotLoaded),
        code == 10 <==> r == Err::<(), NvmlError>(NvmlError::Timeout),
        code == 11 <==> r == Err::<(), NvmlError>(NvmlError::IrqIssue),
        code == 12 <==> r == Err::<(), NvmlError>(NvmlError::LibraryNotFound),
        code == 13 <==> r == Err::<(), NvmlError>(NvmlError::FunctionNotFound),
        code == 14 <==> r == Err::<(), NvmlError>(NvmlError::CorruptedInfoROM),
        code == 15 <==> r == Err::<(), NvmlError>(NvmlError::GpuLost),
        code == 16 <==> r == Err::<(), NvmlError>(NvmlError::ResetRequired),
        code == 17 <==> r == Err::<(), NvmlError>(NvmlError::OperatingSystem),
        code == 18 <==> r == Err::<(), NvmlError>(NvmlError::LibRmVersionMismatch),
        code == 19 <==> r == Err::<(), NvmlError>(NvmlError::InUse),
        code == 20 <==> r == Err::<(), NvmlError>(NvmlError::InsufficientMemory),
        code == 21 <==> r == Err::<(), NvmlError>(NvmlError::NoData),
        code == 22 <==> r == Err::<(), NvmlError>(NvmlError::VgpuEccNotSupported),
        code == 23 <==> r == Err::<(), NvmlError>(NvmlError::InsufficientResources),
        code > 23 <==> r == Err::<(), NvmlError>(NvmlError::Unknown),
{
}

/// An entry point is the address that the loader found, or its error is told.
pub proof fn entry_point_is_handed_on(
    symbol: &Result<EntryPoint, libloading::Error>,
    r: Result<EntryPoint, NvmlError>,
)
    requires
        call_ensures(crate::error::nvml_sym, (symbol,), r),
    ensures
        symbol matches Err(loader) ==> tells_missing(r, *loader),
        symbol matches Ok(entry) ==> r == Ok::<EntryPoint, NvmlError>(*entry),
        symbol matches Err(loader) ==> (r matches Err(NvmlError::FailedToLoadSymbol(text))
            && to_string_from_display_ensures(loader, text)),
{
}

/// A topology level has the number that NVML gives it, and no other number has a level.
pub proof fn levels_have_their_numbers(level: u32, r: Result<TopologyLevel, NvmlError>)
    requires
        call_ensures(TopologyLevel::try_from, (level,), r),
    ensures
        level == 0 <==> r == Ok::<TopologyLevel, NvmlError>(TopologyLevel::Internal),
        level == 10 <==> r == Ok::<TopologyLevel, NvmlError>(TopologyLevel::Single),
        level == 20 <==> r == Ok::<TopologyLevel, NvmlError>(TopologyLevel::Multiple),
        level == 30 <==> r == Ok::<TopologyLevel, NvmlError>(TopologyLevel::HostBridge),
        level == 40 <==> r == Ok::<TopologyLevel, NvmlError>(TopologyLevel::Node),
        level == 50 <==> r == Ok::<TopologyLevel, NvmlError>(TopologyLevel::System),
        r matches Err(error) ==> error == NvmlError::UnexpectedVariant(level),
{
    number_tells_the_level(level, r);
}

/// The level behind a number, by the numbers of NVML.
proof fn number_tells_the_level(level: u32, r: Result<TopologyLevel, NvmlError>)
    requires
        TopologyLevel::is_level_of(r, level),
    ensures
        level == 0 <==> r == Ok::<TopologyLevel, NvmlError>(TopologyLevel::Internal),
        level == 10 <==> r == Ok::<TopologyLevel, NvmlError>(TopologyLevel::Single),
        level == 20 <==> r == Ok::<TopologyLevel, NvmlError>(TopologyLevel::Multiple),
        level == 30 <==> r == Ok::<TopologyLevel, NvmlError>(TopologyLevel::HostBridge),
        level == 40 <==> r == Ok::<TopologyLevel, NvmlError>(TopologyLevel::Node),
        level == 50 <==> r == Ok::<TopologyLevel, NvmlError>(TopologyLevel::System),
        r matches Err(error) ==> error == NvmlError::UnexpectedVariant(level),
{
    assert(TopologyLevel::Internal.as_c() == 0);
    assert(TopologyLevel::Single.as_c() == 10);
    assert(TopologyLevel::Multiple.as_c() == 20);
    assert(TopologyLevel::HostBridge.as_c() == 30);
    assert(TopologyLevel::Node.as_c() == 40);
    assert(TopologyLevel::System.as_c() == 50);
}

/// Flags are the number that NVML is told: 0 for none, 1 for doing without GPUs.
pub proof fn flags_have_their_bits(none: InitFlags, no_gpus: InitFlags, flags: InitFlags, bits: u32)
    requires
        call_ensures(InitFlags::empty, (), none),
        call_ensures(InitFlags::no_gpus, (), no_gpus),
        call_ensures(InitFlags::bits, (&flags,), bits),
    ensures
        none@ == 0,
        no_gpus@ == 1,
        bits == flags@,
{
}

/// The library is called `libnvidia-ml.so` on Linux and `nvml.dll` elsewhere.
pub proof fn library_has_its_name(platform: Platform, path: &'static str)
    requires
        call_ensures(Platform::lib_path, (platform,), path),
    ensures
        platform is Linux ==> path@ == "libnvidia-ml.so"@,
        platform is Other ==> path@ == "nvml.dll"@,
{
}

/// A buffer is announced with its length, or with the largest size there is if it is longer.
pub proof fn size_is_announced(length: usize, size: u32)
    requires
        call_ensures(crate::nvml::announced_size, (length,), size),
    ensures
        length <= u32::MAX ==> size == length,
        length > u32::MAX ==> size == u32::MAX,
{
}

/// The major version is the number of whole thousands, on either side of zero.
pub proof fn major_version_counts_thousands(version: i32, r: i32)
    requires
        call_ensures(crate::cuda_driver_version_major, (version,), r),
    ensures
        version >= 0 ==> 1000 * r <= version < 1000 * r + 1000,
        version < 0 ==> 1000 * r - 1000 < version <= 1000 * r,
{
}

/// The minor version is the number of whole tens beside the whole thousands, on either side of
/// zero.
pub proof fn minor_version_counts_tens(version: i32, major: i32, r: i32)
    requires
        call_ensures(crate::cuda_driver_version_major, (version,), major),
        call_ensures(crate::cuda_driver_version_minor, (version,), r),
    ensures
        version >= 0 ==> 10 * r <= version - 1000 * major < 10 * r + 10,
        version < 0 ==> 10 * r - 10 < version - 1000 * major <= 10 * r,
        -100 < r < 100,
{
}

/// PCI attributes are read field by field, with the whole text of the bus ID. Only a bus ID that
/// is no text is an error.
pub proof fn pci_info_is_read_by_field(
    raw: RawPciInfo,
    sub_sys_id_present: bool,
    r: Result<PciInfo, NvmlError>,
)
    requires
        call_ensures(PciInfo::try_from, (raw, sub_sys_id_present), r),
    ensures
        r matches Ok(info) ==> has_fields_of(info, raw),
        r matches Ok(info) ==> {
            &&& info.domain == raw.domain
            &&& info.bus == raw.bus
            &&& info.device == raw.device
            &&& info.pci_device_id == raw.pciDeviceId
            &&& sub_sys_id_present ==> info.pci_sub_system_id == Some(raw.pciSubSystemId)
            &&& !sub_sys_id_present ==> info.pci_sub_system_id is None
            &&& holds(raw.busId@, info.bus_id@)
        },
        r matches Err(error) ==> holds_no_text(raw.busId@, error),
{
    match r {
        Ok(info) => text_is_held(raw.busId@, Ok(info.bus_id)),
        Err(error) => text_is_held(raw.busId@, Err(error)),
    }
}

/// PCI attributes are written field by field, with the whole text of the bus ID, or the bus ID is
/// refused.
pub proof fn pci_info_is_written_by_field(info: PciInfo, r: Result<RawPciInfo, NvmlError>)
    requires
        call_ensures(PciInfo::try_into, (info,), r),
    ensures
        r matches Ok(raw) ==> is_filled_from(raw, info),
        r is Ok <==> !encode_utf8(info.bus_id@).contains(0u8) && encode_utf8(info.bus_id@).len()
            < 32,
        r matches Ok(raw) ==> {
            &&& raw.domain == info.domain
            &&& raw.bus == info.bus
            &&& raw.device == info.device
            &&& raw.pciDeviceId == info.pci_device_id
            &&& info.pci_sub_system_id matches Some(id) ==> raw.pciSubSystemId == id
            &&& info.pci_sub_system_id is None ==> raw.pciSubSystemId == 0
            &&& holds(raw.busId@, info.bus_id@)
            &&& forall|i: int|
                encode_utf8(info.bus_id@).len() <= i < 32 ==> #[trigger] raw.busId@[i] == 0
            &&& forall|i: int| 0 <= i < 16 ==> #[trigger] raw.busIdLegacy@[i] == 0
        },
        r is Err && encode_utf8(info.bus_id@).contains(0u8) ==> refuses_zero(r, info.bus_id@),
        r is Err && !encode_utf8(info.bus_id@).contains(0u8) ==> (r matches Err(
            NvmlError::StringTooLong { max_len, actual_len },
        ) && max_len == 32 && actual_len == encode_utf8(info.bus_id@).len() + 1),
{
    conversion_is_direct(info, r);
}

/// What is written for PCI attributes has each of them, or refuses the bus ID.
proof fn conversion_is_direct(info: PciInfo, r: Result<RawPciInfo, NvmlError>)
    requires
        info.is_raw_of(r),
    ensures
        is_conversion(info, r),
{
    let bytes = encode_utf8(info.bus_id@);
    bytes.index_of_first_ensures(0u8);
    if let Ok(raw) = r {
        let padding = Seq::new((32 - bytes.len()) as nat, |i: int| 0u8);
        assert(raw.busId@ == bytes + padding);
        assert forall|i: int| 0 <= i < bytes.len() implies #[trigger] raw.busId@[i] == bytes[i] by {
        }
        assert forall|i: int| bytes.len() <= i < 32 implies #[trigger] raw.busId@[i] == 0 by {
            assert(padding[i - bytes.len()] == 0u8);
        }
        assert forall|i: int| 0 <= i < bytes.len() implies raw.busId@[i] != 0 by {
            assert(bytes.contains(bytes[i]));
        }
        assert(ends_at(raw.busId@, bytes.len() as int));
        assert(raw.busId@.take(bytes.len() as int) =~= bytes);
    }
}

/// A host interface card is read field by field, with the whole text of its firmware version.
pub proof fn hic_is_read_by_field(raw: RawHwbcEntry, r: Result<HwbcEntry, NvmlError>)
    requires
        call_ensures(HwbcEntry::try_from, (raw,), r),
    ensures
        r matches Ok(entry) ==> entry.id == raw.hwbcId && holds(
            raw.firmwareVersion@,
            entry.firmware_version@,
        ),
        r matches Err(error) ==> holds_no_text(raw.firmwareVersion@, error),
{
    match r {
        Ok(entry) => text_is_held(raw.firmwareVersion@, Ok(entry.firmware_version)),
        Err(error) => text_is_held(raw.firmwareVersion@, Err(error)),
    }
}

/// `entries` has one card for each element of `raw`, in order, with its ID and the whole text of
/// its firmware version.
pub open spec fn are_cards_of(entries: Seq<HwbcEntry>, raw: Seq<RawHwbcEntry>) -> bool {
    &&& entries.len() == raw.len()
    &&& forall|i: int|
        0 <= i < raw.len() ==> (#[trigger] entries[i]).id == raw[i].hwbcId && holds(
            raw[i].firmwareVersion@,
            entries[i].firmware_version@,
        )
}

/// `error` is that of the first element of `raw` that holds no text.
pub open spec fn is_first_error_of(error: NvmlError, raw: Seq<RawHwbcEntry>) -> bool {
    exists|first: int|
        0 <= first < raw.len() && holds_no_text((#[trigger] raw[first]).firmwareVersion@, error)
            && forall|i: int|
            0 <= i < first ==> holds_a_text((#[trigger] raw[i]).firmwareVersion@)
}

/// Cards that were read are those of the structures, one by one.
proof fn cards_are_read(raw: Seq<RawHwbcEntry>, r: Result<Vec<HwbcEntry>, NvmlError>)
    requires
        HwbcEntry::are_entries_of(r, raw),
    ensures
        r matches Ok(entries) ==> are_cards_of(entries@, raw),
        r matches Err(error) ==> is_first_error_of(error, raw),
{
    match r {
        Ok(entries) => {
            assert forall|i: int| 0 <= i < raw.len() implies (#[trigger] entries@[i]).id
                == raw[i].hwbcId && holds(
                raw[i].firmwareVersion@,
                entries@[i].firmware_version@,
            ) by {
                assert(HwbcEntry::is_entry_of(Ok(entries@[i]), raw[i]));
                text_is_held(raw[i].firmwareVersion@, Ok(entries@[i].firmware_version));
            }
        },
        Err(error) => {
            let first = choose|first: int|
                0 <= first < raw.len() && #[trigger] HwbcEntry::is_entry_of(Err(error), raw[first])
                    && forall|j: int| 0 <= j < first ==> #[trigger] HwbcEntry::has_text(raw[j]);
            text_is_held(raw[first].firmwareVersion@, Err(error));
            assert forall|i: int| 0 <= i < first implies holds_a_text(
                (#[trigger] raw[i]).firmwareVersion@,
            ) by {
                assert(HwbcEntry::has_text(raw[i]));
                some_text_is_held(raw[i].firmwareVersion@);
            }
            assert(holds_no_text(raw[first].firmwareVersion@, error));
        },
    }
}

/// Host interface cards are read one by one, all of them, in their order; or the error is that of
/// the first that holds no text.
pub proof fn hics_are_read_one_by_one(raw: &[RawHwbcEntry], r: Result<Vec<HwbcEntry>, NvmlError>)
    requires
        call_ensures(HwbcEntry::try_from_all, (raw,), r),
    ensures
        r matches Ok(entries) ==> are_cards_of(entries@, raw@),
        r matches Err(error) ==> is_first_error_of(error, raw@),
        r matches Ok(entries) ==> entries@.len() == raw@.len(),
        r matches Ok(entries) ==> forall|i: int|
            0 <= i < raw@.len() ==> (#[trigger] entries@[i]).id == raw@[i].hwbcId && holds(
                raw@[i].firmwareVersion@,
                entries@[i].firmware_version@,
            ),
        r matches Err(error) ==> exists|first: int|
            0 <= first < raw@.len() && holds_no_text(
                (#[trigger] raw@[first]).firmwareVersion@,
                error,
            ) && forall|i: int|
                0 <= i < first ==> holds_a_text((#[trigger] raw@[i]).firmwareVersion@),
{
    cards_are_read(raw@, r);
}

/// `r` has the PCI attributes of `raw` field by field, its subsystem's ID, and the whole text of
/// its UUID; or the error of the bus ID, or that of the UUID if the bus ID is a text.
pub open spec fn is_device_of(
    r: Result<BlacklistDeviceInfo, NvmlError>,
    raw: RawBlacklistDeviceInfo,
) -> bool {
    match r {
        Ok(info) => {
            &&& has_fields_of(info.pci_info, raw.pciInfo)
            &&& info.pci_info.pci_sub_system_id == Some(raw.pciInfo.pciSubSystemId)
            &&& holds(raw.uuid@, info.uuid@)
        },
        Err(error) => holds_no_text(raw.pciInfo.busId@, error) || (holds_no_text(raw.uuid@, error)
            && holds_a_text(raw.pciInfo.busId@)),
    }
}

/// A blacklisted device that was read is that of the structure.
proof fn device_is_read(r: Result<BlacklistDeviceInfo, NvmlError>, raw: RawBlacklistDeviceInfo)
    requires
        BlacklistDeviceInfo::is_info_of(r, raw),
    ensures
        is_device_of(r, raw),
{
    match r {
        Ok(info) => {
            text_is_held(raw.pciInfo.busId@, Ok(info.pci_info.bus_id));
            text_is_held(raw.uuid@, Ok(info.uuid));
        },
        Err(error) => {
            if PciInfo::has_text(raw.pciInfo) {
                text_is_held(raw.uuid@, Err(error));
                some_text_is_held(raw.pciInfo.busId@);
            } else {
                text_is_held(raw.pciInfo.busId@, Err(error));
            }
        },
    }
}

/// A blacklisted device is read field by field. Where its UUID is the C string of a text, whatever
/// follows, and its bus ID is a text, its UUID is that whole text.
pub proof fn blacklisted_device_is_read_by_field(
    raw: RawBlacklistDeviceInfo,
    uuid: Seq<char>,
    bus_id: Seq<char>,
    r: Result<BlacklistDeviceInfo, NvmlError>,
)
    requires
        call_ensures(BlacklistDeviceInfo::try_from, (raw,), r),
    ensures
        is_device_of(r, raw),
        match r {
            Ok(info) => {
                &&& info.pci_info.domain == raw.pciInfo.domain
                &&& info.pci_info.bus == raw.pciInfo.bus
                &&& info.pci_info.device == raw.pciInfo.device
                &&& info.pci_info.pci_device_id == raw.pciInfo.pciDeviceId
                &&& info.pci_info.pci_sub_system_id == Some(raw.pciInfo.pciSubSystemId)
                &&& holds(raw.pciInfo.busId@, info.pci_info.bus_id@)
                &&& holds(raw.uuid@, info.uuid@)
            },
            Err(error) => {
                ||| holds_no_text(raw.pciInfo.busId@, error)
                ||| holds_a_text(raw.pciInfo.busId@) && holds_no_text(raw.uuid@, error)
            },
        },
        holds(raw.uuid@, uuid) && holds(raw.pciInfo.busId@, bus_id) ==> (r matches Ok(info)
            && info.uuid@ == uuid && info.pci_info.bus_id@ == bus_id),
{
    device_is_read(r, raw);
    if holds(raw.uuid@, uuid) && holds(raw.pciInfo.busId@, bus_id) {
        if let Ok(info) = r {
            buffer_holds_one_text(raw.uuid@, info.uuid@, uuid);
            buffer_holds_one_text(raw.pciInfo.busId@, info.pci_info.bus_id@, bus_id);
        }
    }
}

/// A zeroed PCI structure has no byte but zero.
pub proof fn zeroed_pci_info_is_zero(r: RawPciInfo)
    requires
        call_ensures(RawPciInfo::zeroed, (), r),
    ensures
        is_zero_pci(r),
        r.domain == 0 && r.bus == 0 && r.device == 0,
        r.pciDeviceId == 0 && r.pciSubSystemId == 0,
        forall|i: int| 0 <= i < 16 ==> #[trigger] r.busIdLegacy@[i] == 0,
        forall|i: int| 0 <= i < 32 ==> #[trigger] r.busId@[i] == 0,
{
}

/// Every field and every byte is zero.
pub open spec fn is_zero_pci(raw: RawPciInfo) -> bool {
    &&& raw.domain == 0 && raw.bus == 0 && raw.device == 0
    &&& raw.pciDeviceId == 0 && raw.pciSubSystemId == 0
    &&& forall|i: int| 0 <= i < 16 ==> #[trigger] raw.busIdLegacy@[i] == 0
    &&& forall|i: int| 0 <= i < 32 ==> #[trigger] raw.busId@[i] == 0
}

/// Every field and every byte is zero.
pub open spec fn is_zero_hic(raw: RawHwbcEntry) -> bool {
    &&& raw.hwbcId == 0
    &&& forall|i: int| 0 <= i < 32 ==> #[trigger] raw.firmwareVersion@[i] == 0
}

/// A zeroed card has no byte but zero.
pub proof fn zeroed_hic_is_zero(r: RawHwbcEntry)
    requires
        call_ensures(RawHwbcEntry::zeroed, (), r),
    ensures
        is_zero_hic(r),
        r.hwbcId == 0,
        forall|i: int| 0 <= i < 32 ==> #[trigger] r.firmwareVersion@[i] == 0,
{
}

/// Zeroed cards are as many as asked for, and have no byte but zero.
pub proof fn zeroed_hics_are_zero(length: usize, r: Vec<RawHwbcEntry>)
    requires
        call_ensures(RawHwbcEntry::zeroed_vec, (length,), r),
    ensures
        r@.len() == length,
        forall|i: int| 0 <= i < length ==> (#[trigger] r@[i]).hwbcId == 0,
        forall|i: int, j: int|
            0 <= i < length && 0 <= j < 32 ==> #[trigger] r@[i].firmwareVersion@[j] == 0,
{
}

/// A zeroed device has no byte but zero.
pub proof fn zeroed_device_is_zero(r: RawBlacklistDeviceInfo)
    requires
        call_ensures(RawBlacklistDeviceInfo::zeroed, (), r),
    ensures
        is_zero_device(r),
        is_zero_pci(r.pciInfo),
        forall|i: int| 0 <= i < 80 ==> #[trigger] r.uuid@[i] == 0,
{
}

/// Every field and every byte is zero.
pub open spec fn is_zero_device(raw: RawBlacklistDeviceInfo) -> bool {
    &&& is_zero_pci(raw.pciInfo)
    &&& forall|i: int| 0 <= i < 80 ==> #[trigger] raw.uuid@[i] == 0
}

/// `r` is what a buffer that came back with `code` says: after a success, the text that it holds,
/// or an error if it holds none; else the error that the code stands for.
pub open spec fn is_text_answer(r: Result<String, NvmlError>, code: u32, buffer: Seq<u8>) -> bool {
    if code == 0 {
        match r {
            Ok(text) => holds(buffer, text@),
            Err(error) => holds_no_text(buffer, error),
        }
    } else {
        fails_with(r, code)
    }
}

/// A text that came back is the one that the buffer holds.
proof fn text_answer(r: Result<String, NvmlError>, reply: Reply<Vec<u8>>)
    requires
        crate::nvml::is_text_reply(r, reply),
    ensures
        is_text_answer(r, reply.code, reply.value@),
{
    if reply.code == 0 {
        text_is_held(reply.value@, r);
    }
}

/// The text of a reply is read whole: where the buffer starts with the C string of a text, a
/// success gives that text.
pub proof fn text_reply_is_read_whole(
    reply: Reply<Vec<u8>>,
    text: Seq<char>,
    rest: Seq<u8>,
    r: Result<String, NvmlError>,
)
    requires
        call_ensures(crate::nvml::text_reply, (reply,), r),
    ensures
        is_text_answer(r, reply.code, reply.value@),
        reply.code == 0 ==> match r {
            Ok(text) => holds(reply.value@, text@),
            Err(error) => holds_no_text(reply.value@, error),
        },
        reply.code != 0 ==> r == Err::<String, NvmlError>(crate::error::error_of(reply.code)),
        reply.code == 0 && !text.contains('\0') && reply.value@ == encode_utf8(text).push(0u8)
            + rest ==> (r matches Ok(read) && read@ == text),
{
    text_answer(r, reply);
    if reply.code == 0 && !text.contains('\0') && reply.value@ == encode_utf8(text).push(0u8)
        + rest {
        c_string_holds_its_text(text, rest);
        if let Ok(read) = r {
            buffer_holds_one_text(reply.value@, read@, text);
        }
    }
}

/// The level of a reply is the one with its number.
pub proof fn level_reply_tells_the_level(reply: Reply<u32>, r: Result<TopologyLevel, NvmlError>)
    requires
        call_ensures(crate::nvml::level_reply, (reply,), r),
    ensures
        is_level_answer(r, reply.code, reply.value),
        reply.code == 0 && reply.value == 0 ==> r == Ok::<TopologyLevel, NvmlError>(
            TopologyLevel::Internal,
        ),
        reply.code == 0 && reply.value == 10 ==> r == Ok::<TopologyLevel, NvmlError>(
            TopologyLevel::Single,
        ),
        reply.code == 0 && reply.value == 20 ==> r == Ok::<TopologyLevel, NvmlError>(
            TopologyLevel::Multiple,
        ),
        reply.code == 0 && reply.value == 30 ==> r == Ok::<TopologyLevel, NvmlError>(
            TopologyLevel::HostBridge,
        ),
        reply.code == 0 && reply.value == 40 ==> r == Ok::<TopologyLevel, NvmlError>(
            TopologyLevel::Node,
        ),
        reply.code == 0 && reply.value == 50 ==> r == Ok::<TopologyLevel, NvmlError>(
            TopologyLevel::System,
        ),
        reply.code == 0 && r is Err ==> r == Err::<TopologyLevel, NvmlError>(
            NvmlError::UnexpectedVariant(reply.value),
        ),
        reply.code == 0 && r is Ok ==> reply.value % 10 == 0 && reply.value <= 50,
        reply.code != 0 ==> r == Err::<TopologyLevel, NvmlError>(
            crate::error::error_of(reply.code),
        ),
{
    level_answer(r, reply);
}

/// `r` is the level whose number came back with `code`.
pub open spec fn is_level_answer(
    r: Result<TopologyLevel, NvmlError>,
    code: u32,
    level: u32,
) -> bool {
    if code != 0 {
        fails_with(r, code)
    } else if level == 0 {
        r == Ok::<TopologyLevel, NvmlError>(TopologyLevel::Internal)
    } else if level == 10 {
        r == Ok::<TopologyLevel, NvmlError>(TopologyLevel::Single)
    } else if level == 20 {
        r == Ok::<TopologyLevel, NvmlError>(TopologyLevel::Multiple)
    } else if level == 30 {
        r == Ok::<TopologyLevel, NvmlError>(TopologyLevel::HostBridge)
    } else if level == 40 {
        r == Ok::<TopologyLevel, NvmlError>(TopologyLevel::Node)
    } else if level == 50 {
        r == Ok::<TopologyLevel, NvmlError>(TopologyLevel::System)
    } else {
        r == Err::<TopologyLevel, NvmlError>(NvmlError::UnexpectedVariant(level))
    }
}

/// A level that came back is the one with the number.
proof fn level_answer(r: Result<TopologyLevel, NvmlError>, reply: Reply<u32>)
    requires
        crate::nvml::is_level_reply(r, reply),
    ensures
        is_level_answer(r, reply.code, reply.value),
{
    if reply.code == 0 {
        number_tells_the_level(reply.value, r);
    }
}

/// `r` is the truth value that came back with `code`: anything but zero is true.
pub open spec fn is_truth_answer(r: Result<bool, NvmlError>, code: u32, value: i32) -> bool {
    if code == 0 {
        r == Ok::<bool, NvmlError>(value != 0)
    } else {
        fails_with(r, code)
    }
}

/// The truth value of a reply is whether it is zero.
pub proof fn truth_reply_tells_zero_apart(reply: Reply<i32>, r: Result<bool, NvmlError>)
    requires
        call_ensures(crate::nvml::truth_reply, (reply,), r),
    ensures
        is_truth_answer(r, reply.code, reply.value),
        reply.code == 0 ==> r == Ok::<bool, NvmlError>(reply.value != 0),
        reply.code != 0 ==> r == Err::<bool, NvmlError>(crate::error::error_of(reply.code)),
{
}

/// `r` is the number of cards that came back with `code`, which may say that the room is too
/// small.
pub open spec fn is_hic_count_answer(r: Result<u32, NvmlError>, code: u32, count: u32) -> bool {
    if code == 0 || code == 7 {
        r == Ok::<u32, NvmlError>(count)
    } else {
        fails_with(r, code)
    }
}

/// The number of cards of a reply is the number that came back.
pub proof fn hic_count_reply_is_the_number(reply: Reply<u32>, r: Result<u32, NvmlError>)
    requires
        call_ensures(crate::nvml::hic_count_reply, (reply,), r),
    ensures
        is_hic_count_answer(r, reply.code, reply.value),
        reply.code == 0 || reply.code == 7 ==> r == Ok::<u32, NvmlError>(reply.value),
        reply.code != 0 && reply.code != 7 ==> r == Err::<u32, NvmlError>(
            crate::error::error_of(reply.code),
        ),
{
}

/// `r` has the cards that came back with `code`, all of them, in their order.
pub open spec fn is_hic_answer(
    r: Result<Vec<HwbcEntry>, NvmlError>,
    code: u32,
    raw: Seq<RawHwbcEntry>,
) -> bool {
    if code == 0 {
        match r {
            Ok(entries) => are_cards_of(entries@, raw),
            Err(error) => is_first_error_of(error, raw),
        }
    } else {
        fails_with(r, code)
    }
}

/// Cards that came back are those of the structures, one by one.
proof fn hic_answer(r: Result<Vec<HwbcEntry>, NvmlError>, reply: Reply<Vec<RawHwbcEntry>>)
    requires
        crate::nvml::is_hic_reply(r, reply),
    ensures
        is_hic_answer(r, reply.code, reply.value@),
{
    if reply.code == 0 {
        cards_are_read(reply.value@, r);
    }
}

/// The cards of a reply are all that came back.
pub proof fn hic_reply_has_every_card(
    reply: Reply<Vec<RawHwbcEntry>>,
    r: Result<Vec<HwbcEntry>, NvmlError>,
)
    requires
        call_ensures(crate::nvml::hic_reply, (reply,), r),
    ensures
        is_hic_answer(r, reply.code, reply.value@),
        reply.code == 0 ==> match r {
            Ok(entries) => {
                &&& entries@.len() == reply.value@.len()
                &&& forall|i: int|
                    0 <= i < reply.value@.len() ==> (#[trigger] entries@[i]).id
                        == reply.value@[i].hwbcId && holds(
                        reply.value@[i].firmwareVersion@,
                        entries@[i].firmware_version@,
                    )
            },
            Err(error) => exists|first: int|
                0 <= first < reply.value@.len() && holds_no_text(
                    (#[trigger] reply.value@[first]).firmwareVersion@,
                    error,
                ) && forall|i: int|
                    0 <= i < first ==> holds_a_text((#[trigger] reply.value@[i]).firmwareVersion@),
        },
        reply.code != 0 ==> r == Err::<Vec<HwbcEntry>, NvmlError>(
            crate::error::error_of(reply.code),
        ),
{
    hic_answer(r, reply);
}

/// The blacklisted device of a reply is the one that came back.
pub proof fn info_reply_is_read_by_field(
    reply: Reply<RawBlacklistDeviceInfo>,
    r: Result<BlacklistDeviceInfo, NvmlError>,
)
    requires
        call_ensures(crate::nvml::info_reply, (reply,), r),
    ensures
        reply.code == 0 ==> match r {
            Ok(info) => {
                &&& info.pci_info.domain == reply.value.pciInfo.domain
                &&& info.pci_info.bus == reply.value.pciInfo.bus
                &&& info.pci_info.device == reply.value.pciInfo.device
                &&& info.pci_info.pci_device_id == reply.value.pciInfo.pciDeviceId
                &&& info.pci_info.pci_sub_system_id == Some(reply.value.pciInfo.pciSubSystemId)
                &&& holds(reply.value.pciInfo.busId@, info.pci_info.bus_id@)
                &&& holds(reply.value.uuid@, info.uuid@)
            },
            Err(error) => {
                ||| holds_no_text(reply.value.pciInfo.busId@, error)
                ||| holds_a_text(reply.value.pciInfo.busId@) && holds_no_text(
                    reply.value.uuid@,
                    error,
                )
            },
        },
        reply.code != 0 ==> r == Err::<BlacklistDeviceInfo, NvmlError>(
            crate::error::error_of(reply.code),
        ),
{
    if reply.code == 0 {
        device_is_read(r, reply.value);
    }
}

/// What closing the library gave is what is reported.
pub proof fn closing_is_reported(
    closed: Result<(), libloading::Error>,
    r: Result<(), NvmlError>,
)
    requires
        call_ensures(crate::nvml::closed_with, (closed,), r),
    ensures
        closed is Ok ==> r == Ok::<(), NvmlError>(()),
        closed matches Err(error) ==> r == Err::<(), NvmlError>(NvmlError::LibloadingError(error)),
{
}

/// `r` is the device of the session `nvml` with exactly the handle that came back with `code`.
pub open spec fn is_device_answer(
    r: Result<Device, NvmlError>,
    code: u32,
    handle: Handle,
    nvml: NVML,
) -> bool {
    if code == 0 {
        r is Ok && r->Ok_0.spec_handle() == handle && r->Ok_0.spec_nvml() == nvml
    } else {
        fails_with(r, code)
    }
}

/// The device of a reply has the handle that came back, bit for bit, and belongs to the session.
pub proof fn device_reply_keeps_the_handle<'nvml>(
    nvml: &'nvml NVML,
    reply: Reply<Handle>,
    r: Result<Device<'nvml>, NvmlError>,
)
    requires
        call_ensures(NVML::device_reply, (nvml, reply), r),
    ensures
        is_device_answer(r, reply.code, reply.value, *nvml),
        r is Ok <==> reply.code == 0,
        r matches Ok(found) ==> found.spec_handle() == reply.value && found.spec_nvml() == *nvml,
        r matches Err(error) ==> error == crate::error::error_of(reply.code),
{
}

/// `r` is the unit of the session `nvml` with exactly the handle that came back with `code`.
pub open spec fn is_unit_answer(
    r: Result<Unit, NvmlError>,
    code: u32,
    handle: Handle,
    nvml: NVML,
) -> bool {
    if code == 0 {
        r is Ok && r->Ok_0.spec_handle() == handle && r->Ok_0.spec_nvml() == nvml
    } else {
        fails_with(r, code)
    }
}

/// The unit of a reply has the handle that came back, bit for bit, and belongs to the session.
pub proof fn unit_reply_keeps_the_handle<'nvml>(
    nvml: &'nvml NVML,
    reply: Reply<Handle>,
    r: Result<Unit<'nvml>, NvmlError>,
)
    requires
        call_ensures(NVML::unit_reply, (nvml, reply), r),
    ensures
        is_unit_answer(r, reply.code, reply.value, *nvml),
        r is Ok <==> reply.code == 0,
        r matches Ok(found) ==> found.spec_handle() == reply.value && found.spec_nvml() == *nvml,
        r matches Err(error) ==> error == crate::error::error_of(reply.code),
{
}

/// `r` is the event set of the session `nvml` with exactly the handle that came back with `code`.
pub open spec fn is_event_set_answer(
    r: Result<EventSet, NvmlError>,
    code: u32,
    handle: Handle,
    nvml: NVML,
) -> bool {
    if code == 0 {
        r is Ok && r->Ok_0.spec_handle() == handle && r->Ok_0.spec_nvml() == nvml
    } else {
        fails_with(r, code)
    }
}

/// The event set of a reply has the handle that came back, bit for bit, and belongs to the session.
pub proof fn event_set_reply_keeps_the_handle<'nvml>(
    nvml: &'nvml NVML,
    reply: Reply<Handle>,
    r: Result<EventSet<'nvml>, NvmlError>,
)
    requires
        call_ensures(NVML::event_set_reply, (nvml, reply), r),
    ensures
        is_event_set_answer(r, reply.code, reply.value, *nvml),
        r is Ok <==> reply.code == 0,
        r matches Ok(found) ==> found.spec_handle() == reply.value && found.spec_nvml() == *nvml,
        r matches Err(error) ==> error == crate::error::error_of(reply.code),
{
}

/// `r` has one device for each handle that came back with `code`, with that handle, in their
/// order, and each belongs to the session `nvml`.
pub open spec fn is_device_set_answer(
    r: Result<Vec<Device>, NvmlError>,
    code: u32,
    handles: Seq<Handle>,
    nvml: NVML,
) -> bool {
    if code == 0 {
        &&& r is Ok
        &&& Seq::new(r->Ok_0@.len(), |i: int| r->Ok_0@[i].spec_handle()) =~= handles
        &&& forall|i: int| 0 <= i < r->Ok_0@.len() ==> (#[trigger] r->Ok_0@[i]).spec_nvml() == nvml
    } else {
        fails_with(r, code)
    }
}

/// The devices of a reply are all that came back: the handles of the devices, taken in order, are
/// the handles of the reply.
pub proof fn device_set_reply_has_every_handle<'nvml>(
    nvml: &'nvml NVML,
    reply: Reply<Vec<Handle>>,
    r: Result<Vec<Device<'nvml>>, NvmlError>,
)
    requires
        call_ensures(NVML::device_set_reply, (nvml, reply), r),
    ensures
        is_device_set_answer(r, reply.code, reply.value@, *nvml),
        r is Ok <==> reply.code == 0,
        r matches Ok(devices) ==> Seq::new(
            devices@.len(),
            |i: int| devices@[i].spec_handle(),
        ) == reply.value@,
        r matches Ok(devices) ==> forall|i: int|
            0 <= i < devices@.len() ==> (#[trigger] devices@[i]).spec_nvml() == *nvml,
        r matches Err(error) ==> error == crate::error::error_of(reply.code),
{
}

/// What a device says of itself: its handle and its session.
pub proof fn device_tells_its_handle<'nvml>(
    device: &Device<'nvml>,
    handle: Handle,
    nvml: &'nvml NVML,
)
    requires
        call_ensures(Device::handle, (device,), handle),
        call_ensures(Device::nvml, (device,), nvml),
    ensures
        handle == device.spec_handle(),
        *nvml == device.spec_nvml(),
{
}

/// What a unit says of itself: its handle and its session.
pub proof fn unit_tells_its_handle<'nvml>(
    unit: &Unit<'nvml>,
    handle: Handle,
    nvml: &'nvml NVML,
)
    requires
        call_ensures(Unit::handle, (unit,), handle),
        call_ensures(Unit::nvml, (unit,), nvml),
    ensures
        handle == unit.spec_handle(),
        *nvml == unit.spec_nvml(),
{
}

/// What an event set says of itself: its handle and its session.
pub proof fn event_set_tells_its_handle<'nvml>(
    event_set: &EventSet<'nvml>,
    handle: Handle,
    nvml: &'nvml NVML,
)
    requires
        call_ensures(EventSet::handle, (event_set,), handle),
        call_ensures(EventSet::nvml, (event_set,), nvml),
    ensures
        handle == event_set.spec_handle(),
        *nvml == event_set.spec_nvml(),
{
}

/// A session gives out the library that it holds.
pub proof fn session_tells_its_library(nvml: &NVML, lib: &NvmlLib)
    requires
        call_ensures(NVML::lib, (nvml,), lib),
    ensures
        *lib == nvml@,
{
}

/// An error of the loader is carried as it is.
pub proof fn loader_error_is_carried(error: libloading::Error, r: NvmlError)
    requires
        call_ensures(<NvmlError as From<libloading::Error>>::from, (error,), r),
    ensures
        r == NvmlError::LibloadingError(error),
{
}

/// `device_count` reports the number that came back from its entry point, as it is.
pub proof fn device_count_is_the_number_that_came_back<F>(
    nvml: &NVML,
    call: F,
    r: Result<u32, NvmlError>,
) where F: FnOnce(EntryPoint, u32) -> Reply<u32>
    requires
        call_ensures(NVML::device_count::<F>, (nvml, call), r),
    ensures
        match nvml@.nvmlDeviceGetCount_v2 {
            Err(loader) => tells_missing(r, loader),
            Ok(entry) => exists|reply: Reply<u32>| #[trigger]
                call_ensures(call, (entry, 0u32), reply) && (reply.code == 0 ==> r == Ok::<
                    u32,
                    NvmlError,
                >(reply.value)) && (reply.code != 0 ==> fails_with(r, reply.code)),
        },
{
}

/// `unit_count` reports the number that came back from its entry point, as it is.
pub proof fn unit_count_is_the_number_that_came_back<F>(
    nvml: &NVML,
    call: F,
    r: Result<u32, NvmlError>,
) where F: FnOnce(EntryPoint, u32) -> Reply<u32>
    requires
        call_ensures(NVML::unit_count::<F>, (nvml, call), r),
    ensures
        match nvml@.nvmlUnitGetCount {
            Err(loader) => tells_missing(r, loader),
            Ok(entry) => exists|reply: Reply<u32>| #[trigger]
                call_ensures(call, (entry, 0u32), reply) && (reply.code == 0 ==> r == Ok::<
                    u32,
                    NvmlError,
                >(reply.value)) && (reply.code != 0 ==> fails_with(r, reply.code)),
        },
{
}

/// `blacklist_device_count` reports the number that came back from its entry point, as it is.
pub proof fn blacklist_device_count_is_the_number_that_came_back<F>(
    nvml: &NVML,
    call: F,
    r: Result<u32, NvmlError>,
) where F: FnOnce(EntryPoint, u32) -> Reply<u32>
    requires
        call_ensures(NVML::blacklist_device_count::<F>, (nvml, call), r),
    ensures
        match nvml@.nvmlGetBlacklistDeviceCount {
            Err(loader) => tells_missing(r, loader),
            Ok(entry) => exists|reply: Reply<u32>| #[trigger]
                call_ensures(call, (entry, 0u32), reply) && (reply.code == 0 ==> r == Ok::<
                    u32,
                    NvmlError,
                >(reply.value)) && (reply.code != 0 ==> fails_with(r, reply.code)),
        },
{
}

/// `sys_cuda_driver_version` reports the number that came back from its entry point, as it is.
pub proof fn sys_cuda_driver_version_is_the_number_that_came_back<F>(
    nvml: &NVML,
    call: F,
    r: Result<i32, NvmlError>,
) where F: FnOnce(EntryPoint, i32) -> Reply<i32>
    requires
        call_ensures(NVML::sys_cuda_driver_version::<F>, (nvml, call), r),
    ensures
        match nvml@.nvmlSystemGetCudaDriverVersion_v2 {
            Err(loader) => tells_missing(r, loader),
            Ok(entry) => exists|reply: Reply<i32>| #[trigger]
                call_ensures(call, (entry, 0i32), reply) && (reply.code == 0 ==> r == Ok::<
                    i32,
                    NvmlError,
                >(reply.value)) && (reply.code != 0 ==> fails_with(r, reply.code)),
        },
{
}

/// `sys_driver_version` hands over 80 zero bytes and gives the whole text that came back in them.
pub proof fn sys_driver_version_is_the_text_that_came_back<F>(
    nvml: &NVML,
    call: F,
    r: Result<String, NvmlError>,
) where F: FnOnce(EntryPoint, Vec<u8>, u32) -> Reply<Vec<u8>>
    requires
        call_ensures(NVML::sys_driver_version::<F>, (nvml, call), r),
    ensures
        match nvml@.nvmlSystemGetDriverVersion {
            Err(loader) => tells_missing(r, loader),
            Ok(entry) => exists|buffer: Vec<u8>, reply: Reply<Vec<u8>>|
                {
                    &&& #[trigger] call_ensures(call, (entry, buffer, 80u32), reply)
                    &&& buffer@.len() == 80
                    &&& forall|i: int| 0 <= i < 80 ==> #[trigger] buffer@[i] == 0
                    &&& is_text_answer(r, reply.code, reply.value@)
                },
        },
{
    if let Ok(entry) = nvml@.nvmlSystemGetDriverVersion {
        let (buffer, reply) = choose|buffer: Vec<u8>, reply: Reply<Vec<u8>>|
            crate::nvml::is_blank(buffer@, 80) && #[trigger] call_ensures(
                call,
                (entry, buffer, 80u32),
                reply,
            ) && crate::nvml::is_text_reply(r, reply);
        text_answer(r, reply);
        assert(call_ensures(call, (entry, buffer, 80u32), reply));
    }
}

/// `sys_nvml_version` hands over 80 zero bytes and gives the whole text that came back in them.
pub proof fn sys_nvml_version_is_the_text_that_came_back<F>(
    nvml: &NVML,
    call: F,
    r: Result<String, NvmlError>,
) where F: FnOnce(EntryPoint, Vec<u8>, u32) -> Reply<Vec<u8>>
    requires
        call_ensures(NVML::sys_nvml_version::<F>, (nvml, call), r),
    ensures
        match nvml@.nvmlSystemGetNVMLVersion {
            Err(loader) => tells_missing(r, loader),
            Ok(entry) => exists|buffer: Vec<u8>, reply: Reply<Vec<u8>>|
                {
                    &&& #[trigger] call_ensures(call, (entry, buffer, 80u32), reply)
                    &&& buffer@.len() == 80
                    &&& forall|i: int| 0 <= i < 80 ==> #[trigger] buffer@[i] == 0
                    &&& is_text_answer(r, reply.code, reply.value@)
                },
        },
{
    if let Ok(entry) = nvml@.nvmlSystemGetNVMLVersion {
        let (buffer, reply) = choose|buffer: Vec<u8>, reply: Reply<Vec<u8>>|
            crate::nvml::is_blank(buffer@, 80) && #[trigger] call_ensures(
                call,
                (entry, buffer, 80u32),
                reply,
            ) && crate::nvml::is_text_reply(r, reply);
        text_answer(r, reply);
        assert(call_ensures(call, (entry, buffer, 80u32), reply));
    }
}

/// `sys_process_name` asks for this process with a buffer of this many zero bytes, announces as
/// much of it as can be announced, and gives the whole text that came back.
pub proof fn sys_process_name_is_the_text_that_came_back<F>(
    nvml: &NVML,
    pid: u32,
    length: usize,
    call: F,
    r: Result<String, NvmlError>,
) where F: FnOnce(EntryPoint, u32, Vec<u8>, u32) -> Reply<Vec<u8>>
    requires
        call_ensures(NVML::sys_process_name::<F>, (nvml, pid, length, call), r),
    ensures
        match nvml@.nvmlSystemGetProcessName {
            Err(loader) => tells_missing(r, loader),
            Ok(entry) => exists|buffer: Vec<u8>, size: u32, reply: Reply<Vec<u8>>|
                {
                    &&& #[trigger] call_ensures(call, (entry, pid, buffer, size), reply)
                    &&& buffer@.len() == length
                    &&& forall|i: int| 0 <= i < length ==> #[trigger] buffer@[i] == 0
                    &&& length <= u32::MAX ==> size == length
                    &&& length > u32::MAX ==> size == u32::MAX
                    &&& is_text_answer(r, reply.code, reply.value@)
                },
        },
{
    if let Ok(entry) = nvml@.nvmlSystemGetProcessName {
        let size = crate::nvml::process_name_size(length);
        let (buffer, reply) = choose|buffer: Vec<u8>, reply: Reply<Vec<u8>>|
            crate::nvml::is_blank(buffer@, length as nat) && #[trigger] call_ensures(
                call,
                (entry, pid, buffer, size),
                reply,
            ) && crate::nvml::is_text_reply(r, reply);
        text_answer(r, reply);
        assert(call_ensures(call, (entry, pid, buffer, size), reply));
    }
}

/// `device_by_index` asks for this index and gives the device with exactly the handle that came
/// back.
pub proof fn device_by_index_keeps_the_handle<'nvml, F>(
    nvml: &'nvml NVML,
    index: u32,
    call: F,
    r: Result<Device<'nvml>, NvmlError>,
) where F: FnOnce(EntryPoint, u32, Handle) -> Reply<Handle>
    requires
        call_ensures(NVML::device_by_index::<F>, (nvml, index, call), r),
    ensures
        match nvml@.nvmlDeviceGetHandleByIndex_v2 {
            Err(loader) => tells_missing(r, loader),
            Ok(entry) => exists|reply: Reply<Handle>| #[trigger]
                call_ensures(call, (entry, index, 0usize), reply) && is_device_answer(
                    r,
                    reply.code,
                    reply.value,
                    *nvml,
                ),
        },
{
}

/// `unit_by_index` asks for this index and gives the unit with exactly the handle that came back.
pub proof fn unit_by_index_keeps_the_handle<'nvml, F>(
    nvml: &'nvml NVML,
    index: u32,
    call: F,
    r: Result<Unit<'nvml>, NvmlError>,
) where F: FnOnce(EntryPoint, u32, Handle) -> Reply<Handle>
    requires
        call_ensures(NVML::unit_by_index::<F>, (nvml, index, call), r),
    ensures
        match nvml@.nvmlUnitGetHandleByIndex {
            Err(loader) => tells_missing(r, loader),
            Ok(entry) => exists|reply: Reply<Handle>| #[trigger]
                call_ensures(call, (entry, index, 0usize), reply) && is_unit_answer(
                    r,
                    reply.code,
                    reply.value,
                    *nvml,
                ),
        },
{
}

/// `create_event_set` gives the event set with exactly the handle that came back.
pub proof fn create_event_set_keeps_the_handle<'nvml, F>(
    nvml: &'nvml NVML,
    call: F,
    r: Result<EventSet<'nvml>, NvmlError>,
) where F: FnOnce(EntryPoint, Handle) -> Reply<Handle>
    requires
        call_ensures(NVML::create_event_set::<F>, (nvml, call), r),
    ensures
        match nvml@.nvmlEventSetCreate {
            Err(loader) => tells_missing(r, loader),
            Ok(entry) => exists|reply: Reply<Handle>| #[trigger]
                call_ensures(call, (entry, 0usize), reply) && is_event_set_answer(
                    r,
                    reply.code,
                    reply.value,
                    *nvml,
                ),
        },
{
}

/// `device_by_pci_bus_id` asks for the whole text, as a C string, and gives the device with exactly
/// the handle that came back. A text with a zero byte is refused.
pub proof fn device_by_pci_bus_id_keeps_the_text_and_the_handle<'nvml, F>(
    nvml: &'nvml NVML,
    text: &str,
    call: F,
    r: Result<Device<'nvml>, NvmlError>,
) where F: FnOnce(EntryPoint, Vec<u8>, Handle) -> Reply<Handle>
    requires
        call_ensures(NVML::device_by_pci_bus_id::<F>, (nvml, text, call), r),
    ensures
        match nvml@.nvmlDeviceGetHandleByPciBusId_v2 {
            Err(loader) => tells_missing(r, loader),
            Ok(entry) => if text@.contains('\0') {
                refuses_zero(r, text@)
            } else {
                exists|bytes: Vec<u8>, reply: Reply<Handle>| #[trigger]
                    call_ensures(call, (entry, bytes, 0usize), reply) && bytes@ == encode_utf8(
                        text@,
                    ).push(0u8) && is_device_answer(r, reply.code, reply.value, *nvml)
            },
        },
{
    encode_utf8(text@).index_of_first_ensures(0u8);
    crate::c_string::zero_bytes_are_zero_characters(text@);
}

/// `device_by_serial` asks for the whole text, as a C string, and gives the device with exactly the
/// handle that came back. A text with a zero byte is refused.
pub proof fn device_by_serial_keeps_the_text_and_the_handle<'nvml, F>(
    nvml: &'nvml NVML,
    text: &str,
    call: F,
    r: Result<Device<'nvml>, NvmlError>,
) where F: FnOnce(EntryPoint, Vec<u8>, Handle) -> Reply<Handle>
    requires
        call_ensures(NVML::device_by_serial::<F>, (nvml, text, call), r),
    ensures
        match nvml@.nvmlDeviceGetHandleBySerial {
            Err(loader) => tells_missing(r, loader),
            Ok(entry) => if text@.contains('\0') {
                refuses_zero(r, text@)
            } else {
                exists|bytes: Vec<u8>, reply: Reply<Handle>| #[trigger]
                    call_ensures(call, (entry, bytes, 0usize), reply) && bytes@ == encode_utf8(
                        text@,
                    ).push(0u8) && is_device_answer(r, reply.code, reply.value, *nvml)
            },
        },
{
    encode_utf8(text@).index_of_first_ensures(0u8);
    crate::c_string::zero_bytes_are_zero_characters(text@);
}

/// `device_by_uuid` asks for the whole text, as a C string, and gives the device with exactly the
/// handle that came back. A text with a zero byte is refused.
pub proof fn device_by_uuid_keeps_the_text_and_the_handle<'nvml, F>(
    nvml: &'nvml NVML,
    text: &str,
    call: F,
    r: Result<Device<'nvml>, NvmlError>,
) where F: FnOnce(EntryPoint, Vec<u8>, Handle) -> Reply<Handle>
    requires
        call_ensures(NVML::device_by_uuid::<F>, (nvml, text, call), r),
    ensures
        match nvml@.nvmlDeviceGetHandleByUUID {
            Err(loader) => tells_missing(r, loader),
            Ok(entry) => if text@.contains('\0') {
                refuses_zero(r, text@)
            } else {
                exists|bytes: Vec<u8>, reply: Reply<Handle>| #[trigger]
                    call_ensures(call, (entry, bytes, 0usize), reply) && bytes@ == encode_utf8(
                        text@,
                    ).push(0u8) && is_device_answer(r, reply.code, reply.value, *nvml)
            },
        },
{
    encode_utf8(text@).index_of_first_ensures(0u8);
    crate::c_string::zero_bytes_are_zero_characters(text@);
}

/// `topology_common_ancestor` asks about these two devices, in this order, and gives the level with
/// the number that came back.
pub proof fn common_ancestor_is_the_level_that_came_back<F>(
    nvml: &NVML,
    device1: &Device,
    device2: &Device,
    call: F,
    r: Result<TopologyLevel, NvmlError>,
) where F: FnOnce(EntryPoint, Handle, Handle, u32) -> Reply<u32>
    requires
        call_ensures(NVML::topology_common_ancestor::<F>, (nvml, device1, device2, call), r),
    ensures
        match nvml@.nvmlDeviceGetTopologyCommonAncestor {
            Err(loader) => tells_missing(r, loader),
            Ok(entry) => exists|reply: Reply<u32>| #[trigger]
                call_ensures(
                    call,
                    (entry, device1.spec_handle(), device2.spec_handle(), 0u32),
                    reply,
                ) && is_level_answer(r, reply.code, reply.value),
        },
{
    if let Ok(entry) = nvml@.nvmlDeviceGetTopologyCommonAncestor {
        let reply = choose|reply: Reply<u32>| #[trigger]
            call_ensures(
                call,
                (entry, device1.spec_handle(), device2.spec_handle(), 0u32),
                reply,
            ) && crate::nvml::is_level_reply(r, reply);
        level_answer(r, reply);
        assert(call_ensures(
            call,
            (entry, device1.spec_handle(), device2.spec_handle(), 0u32),
            reply,
        ));
    }
}

/// `are_devices_on_same_board` asks about these two devices, in this order, and gives what came
/// back.
pub proof fn same_board_is_what_came_back<F>(
    nvml: &NVML,
    device1: &Device,
    device2: &Device,
    call: F,
    r: Result<bool, NvmlError>,
) where F: FnOnce(EntryPoint, Handle, Handle, i32) -> Reply<i32>
    requires
        call_ensures(NVML::are_devices_on_same_board::<F>, (nvml, device1, device2, call), r),
    ensures
        match nvml@.nvmlDeviceOnSameBoard {
            Err(loader) => tells_missing(r, loader),
            Ok(entry) => exists|reply: Reply<i32>| #[trigger]
                call_ensures(
                    call,
                    (entry, device1.spec_handle(), device2.spec_handle(), 0i32),
                    reply,
                ) && is_truth_answer(r, reply.code, reply.value),
        },
{
}

/// `Device::topology_common_ancestor` asks about these two devices, in this order, and gives the
/// level with the number that came back.
pub proof fn common_ancestor_of_a_device_is_the_level_that_came_back<F>(
    device1: &Device,
    device2: &Device,
    call: F,
    r: Result<TopologyLevel, NvmlError>,
) where F: FnOnce(EntryPoint, Handle, Handle, u32) -> Reply<u32>
    requires
        call_ensures(Device::topology_common_ancestor::<F>, (device1, device2, call), r),
    ensures
        match device1.spec_nvml()@.nvmlDeviceGetTopologyCommonAncestor {
            Err(loader) => tells_missing(r, loader),
            Ok(entry) => exists|reply: Reply<u32>| #[trigger]
                call_ensures(
                    call,
                    (entry, device1.spec_handle(), device2.spec_handle(), 0u32),
                    reply,
                ) && is_level_answer(r, reply.code, reply.value),
        },
{
    if let Ok(entry) = device1.spec_nvml()@.nvmlDeviceGetTopologyCommonAncestor {
        let reply = choose|reply: Reply<u32>| #[trigger]
            call_ensures(
                call,
                (entry, device1.spec_handle(), device2.spec_handle(), 0u32),
                reply,
            ) && crate::nvml::is_level_reply(r, reply);
        level_answer(r, reply);
        assert(call_ensures(
            call,
            (entry, device1.spec_handle(), device2.spec_handle(), 0u32),
            reply,
        ));
    }
}

/// `Device::is_on_same_board_as` asks about these two devices, in this order, and gives what came
/// back.
pub proof fn same_board_of_a_device_is_what_came_back<F>(
    device1: &Device,
    device2: &Device,
    call: F,
    r: Result<bool, NvmlError>,
) where F: FnOnce(EntryPoint, Handle, Handle, i32) -> Reply<i32>
    requires
        call_ensures(Device::is_on_same_board_as::<F>, (device1, device2, call), r),
    ensures
        match device1.spec_nvml()@.nvmlDeviceOnSameBoard {
            Err(loader) => tells_missing(r, loader),
            Ok(entry) => exists|reply: Reply<i32>| #[trigger]
                call_ensures(
                    call,
                    (entry, device1.spec_handle(), device2.spec_handle(), 0i32),
                    reply,
                ) && is_truth_answer(r, reply.code, reply.value),
        },
{
}

/// `topology_gpu_set` asks for the GPUs of this CPU, with as many null handles as there are GPUs,
/// and gives one device for each handle that came back, in their order; none if there are none.
pub proof fn topology_gpu_set_has_every_gpu<'nvml, C, F>(
    nvml: &'nvml NVML,
    cpu_number: u32,
    get_count: C,
    get_set: F,
    r: Result<Vec<Device<'nvml>>, NvmlError>,
) where
    C: FnOnce(EntryPoint, u32, u32) -> Reply<u32>,
    F: FnOnce(EntryPoint, u32, u32, Vec<Handle>) -> Reply<Vec<Handle>>,

    requires
        call_ensures(NVML::topology_gpu_set::<C, F>, (nvml, cpu_number, get_count, get_set), r),
    ensures
        match nvml@.nvmlSystemGetTopologyGpuSet {
            Err(loader) => tells_missing(r, loader),
            Ok(entry) => exists|count: Reply<u32>| #[trigger]
                call_ensures(get_count, (entry, cpu_number, 0u32), count) && if count.code != 0 {
                    fails_with(r, count.code)
                } else if count.value == 0 {
                    r is Ok && r->Ok_0@.len() == 0
                } else {
                    exists|handles: Vec<Handle>, reply: Reply<Vec<Handle>>|
                        {
                            &&& #[trigger] call_ensures(
                                get_set,
                                (entry, cpu_number, count.value, handles),
                                reply,
                            )
                            &&& handles@.len() == count.value
                            &&& forall|i: int|
                                0 <= i < handles@.len() ==> #[trigger] handles@[i] == 0
                            &&& is_device_set_answer(r, reply.code, reply.value@, *nvml)
                        }
                },
        },
{
    if let Ok(entry) = nvml@.nvmlSystemGetTopologyGpuSet {
        let count = choose|count: Reply<u32>| #[trigger]
            call_ensures(get_count, (entry, cpu_number, 0u32), count) && match count.outcome() {
                Err(error) => r == Err::<Vec<Device>, NvmlError>(error),
                Ok(count) => if count == 0 {
                    r matches Ok(devices) && devices@.len() == 0
                } else {
                    exists|handles: Vec<Handle>, reply: Reply<Vec<Handle>>|
                        crate::nvml::is_null(handles@, count as nat) && #[trigger] call_ensures(
                            get_set,
                            (entry, cpu_number, count, handles),
                            reply,
                        ) && crate::nvml::is_device_set_reply(r, reply, *nvml)
                },
            };
        assert(call_ensures(get_count, (entry, cpu_number, 0u32), count));
        if count.code == 0 && count.value != 0 {
            let (handles, reply) = choose|handles: Vec<Handle>, reply: Reply<Vec<Handle>>|
                crate::nvml::is_null(handles@, count.value as nat) && #[trigger] call_ensures(
                    get_set,
                    (entry, cpu_number, count.value, handles),
                    reply,
                ) && crate::nvml::is_device_set_reply(r, reply, *nvml);
            assert(call_ensures(get_set, (entry, cpu_number, count.value, handles), reply));
            assert(is_device_set_answer(r, reply.code, reply.value@, *nvml));
        }
    }
}

/// `hic_count` asks with room for one zeroed card, and gives the number that came back.
pub proof fn hic_count_is_the_number_that_came_back<C>(
    nvml: &NVML,
    get_count: C,
    r: Result<u32, NvmlError>,
) where C: FnOnce(EntryPoint, u32, Vec<RawHwbcEntry>) -> Reply<u32>
    requires
        call_ensures(NVML::hic_count::<C>, (nvml, get_count), r),
    ensures
        match nvml@.nvmlSystemGetHicVersion {
            Err(loader) => tells_missing(r, loader),
            Ok(entry) => exists|room: Vec<RawHwbcEntry>, count: Reply<u32>|
                {
                    &&& #[trigger] call_ensures(get_count, (entry, 1u32, room), count)
                    &&& room@.len() == 1 && is_zero_hic(room@[0])
                    &&& is_hic_count_answer(r, count.code, count.value)
                },
        },
{
}

/// `hic_versions` asks for as many cards as there are, and gives every card that came back, in
/// their order; none if there are none.
pub proof fn hic_versions_has_every_card<C, F>(
    nvml: &NVML,
    get_count: C,
    get_versions: F,
    r: Result<Vec<HwbcEntry>, NvmlError>,
) where
    C: FnOnce(EntryPoint, u32, Vec<RawHwbcEntry>) -> Reply<u32>,
    F: FnOnce(EntryPoint, u32, Vec<RawHwbcEntry>) -> Reply<Vec<RawHwbcEntry>>,

    requires
        call_ensures(NVML::hic_versions::<C, F>, (nvml, get_count, get_versions), r),
    ensures
        match nvml@.nvmlSystemGetHicVersion {
            Err(loader) => tells_missing(r, loader),
            Ok(entry) => exists|room: Vec<RawHwbcEntry>, count: Reply<u32>|
                {
                    &&& #[trigger] call_ensures(get_count, (entry, 1u32, room), count)
                    &&& room@.len() == 1 && is_zero_hic(room@[0])
                    &&& if count.code != 0 && count.code != 7 {
                        fails_with(r, count.code)
                    } else if count.value == 0 {
                        r is Ok && r->Ok_0@.len() == 0
                    } else {
                        exists|entries: Vec<RawHwbcEntry>, reply: Reply<Vec<RawHwbcEntry>>|
                            {
                                &&& #[trigger] call_ensures(
                                    get_versions,
                                    (entry, count.value, entries),
                                    reply,
                                )
                                &&& entries@.len() == count.value
                                &&& forall|i: int|
                                    0 <= i < entries@.len() ==> is_zero_hic(#[trigger] entries@[i])
                                &&& is_hic_answer(r, reply.code, reply.value@)
                            }
                    }
                },
        },
{
    if let Ok(entry) = nvml@.nvmlSystemGetHicVersion {
        let (room, count) = choose|room: Vec<RawHwbcEntry>, count: Reply<u32>|
            crate::nvml::is_zeroed(room@, 1) && #[trigger] call_ensures(
                get_count,
                (entry, 1u32, room),
                count,
            ) && match crate::nvml::hic_count_of(count) {
                Err(error) => r == Err::<Vec<HwbcEntry>, NvmlError>(error),
                Ok(total) => if total == 0 {
                    r matches Ok(entries) && entries@.len() == 0
                } else {
                    exists|entries: Vec<RawHwbcEntry>, reply: Reply<Vec<RawHwbcEntry>>|
                        crate::nvml::is_zeroed(entries@, total as nat) && #[trigger] call_ensures(
                            get_versions,
                            (entry, total, entries),
                            reply,
                        ) && crate::nvml::is_hic_reply(r, reply)
                },
            };
        assert(call_ensures(get_count, (entry, 1u32, room), count));
        assert(is_zero_hic(room@[0]));
        if (count.code == 0 || count.code == 7) && count.value != 0 {
            let total = count.value;
            let (entries, reply) = choose|
                entries: Vec<RawHwbcEntry>,
                reply: Reply<Vec<RawHwbcEntry>>,
            |
                crate::nvml::is_zeroed(entries@, total as nat) && #[trigger] call_ensures(
                    get_versions,
                    (entry, total, entries),
                    reply,
                ) && crate::nvml::is_hic_reply(r, reply);
            hic_answer(r, reply);
            assert(call_ensures(get_versions, (entry, count.value, entries), reply));
            assert forall|i: int| 0 <= i < entries@.len() implies is_zero_hic(
                #[trigger] entries@[i],
            ) by {
                assert(entries@[i].is_zeroed());
            }
        }
    }
}

/// `discover_gpus` hands over the attributes field by field, or refuses their bus ID, and reports
/// what came back.
pub proof fn discover_gpus_hands_over_every_field<F>(
    nvml: &NVML,
    pci_info: PciInfo,
    discover: F,
    r: Result<(), NvmlError>,
) where F: FnOnce(EntryPoint, RawPciInfo) -> u32
    requires
        call_ensures(NVML::discover_gpus::<F>, (nvml, pci_info, discover), r),
    ensures
        match nvml@.nvmlDeviceDiscoverGpus {
            Err(loader) => tells_missing(r, loader),
            Ok(entry) => if encode_utf8(pci_info.bus_id@).contains(0u8) {
                refuses_zero(r, pci_info.bus_id@)
            } else if encode_utf8(pci_info.bus_id@).len() > 31 {
                r == Err::<(), NvmlError>(
                    NvmlError::StringTooLong {
                        max_len: 32,
                        actual_len: (encode_utf8(pci_info.bus_id@).len() + 1) as usize,
                    },
                )
            } else {
                exists|raw: RawPciInfo, code: u32|
                    {
                        &&& #[trigger] call_ensures(discover, (entry, raw), code)
                        &&& is_filled_from(raw, pci_info)
                        &&& code == 0 ==> r == Ok::<(), NvmlError>(())
                        &&& code != 0 ==> fails_with(r, code)
                    }
            },
        },
{
    if let Ok(entry) = nvml@.nvmlDeviceDiscoverGpus {
        let written = choose|written: Result<RawPciInfo, NvmlError>| #[trigger]
            pci_info.is_raw_of(written) && match written {
                Err(error) => r == Err::<(), NvmlError>(error),
                Ok(raw) => exists|code: u32|
                    call_ensures(discover, (entry, raw), code) && r == (if code
                        == crate::error::NVML_SUCCESS {
                        Ok(())
                    } else {
                        Err(crate::error::error_of(code))
                    }),
            };
        conversion_is_direct(pci_info, written);
    }
}

/// `blacklist_device_info` asks for this index with a zeroed structure, and reads what came back
/// field by field.
pub proof fn blacklist_device_info_is_read_by_field<F>(
    nvml: &NVML,
    index: u32,
    get_info: F,
    r: Result<BlacklistDeviceInfo, NvmlError>,
) where F: FnOnce(EntryPoint, u32, RawBlacklistDeviceInfo) -> Reply<RawBlacklistDeviceInfo>
    requires
        call_ensures(NVML::blacklist_device_info::<F>, (nvml, index, get_info), r),
    ensures
        match nvml@.nvmlGetBlacklistDeviceInfoByIndex {
            Err(loader) => tells_missing(r, loader),
            Ok(entry) => exists|info: RawBlacklistDeviceInfo, reply: Reply<RawBlacklistDeviceInfo>|
                {
                    &&& #[trigger] call_ensures(get_info, (entry, index, info), reply)
                    &&& is_zero_device(info)
                    &&& reply.code == 0 ==> is_device_of(r, reply.value)
                    &&& reply.code != 0 ==> fails_with(r, reply.code)
                },
        },
{
    if let Ok(entry) = nvml@.nvmlGetBlacklistDeviceInfoByIndex {
        let (info, reply) = choose|
            info: RawBlacklistDeviceInfo,
            reply: Reply<RawBlacklistDeviceInfo>,
        |
            info.is_zeroed() && #[trigger] call_ensures(get_info, (entry, index, info), reply)
                && crate::nvml::is_info_reply(r, reply);
        if reply.code == 0 {
            device_is_read(r, reply.value);
        }
        assert(call_ensures(get_info, (entry, index, info), reply));
    }
}

/// `init` opens the library by its name on the platform, calls the entry point,
/// and holds exactly that library if the call returns 0. Otherwise it says why not, and a library
/// that was opened is closed.
pub proof fn init_holds_the_library<L, I>(
    platform: Platform,
    load: L,
    init: I,
    r: Result<NVML, NvmlError>,
) where
    L: FnOnce(&'static str) -> Result<NvmlLib, libloading::Error>,
    I: FnOnce(EntryPoint) -> u32,

    requires
        call_ensures(NVML::init::<L, I>, (platform, load, init), r),
    ensures
        exists|path: &'static str, loaded: Result<NvmlLib, libloading::Error>|
            {
                &&& #[trigger] call_ensures(load, (path,), loaded)
                &&& platform is Linux ==> path@ == "libnvidia-ml.so"@
                &&& platform is Other ==> path@ == "nvml.dll"@
                &&& match loaded {
                    Err(error) => r == Err::<NVML, NvmlError>(NvmlError::LibloadingError(error)),
                    Ok(lib) => match lib.nvmlInit_v2 {
                        Err(loader) => {
                            &&& tells_missing(r, loader)
                            &&& exists|closed: Result<(), libloading::Error>|
                                call_ensures(libloading::Library::close, (lib.library,), closed)
                        },
                        Ok(entry) => exists|code: u32| #[trigger]
                            call_ensures(init, (entry,), code) && if code == 0 {
                                r is Ok && r->Ok_0@ == lib
                            } else {
                                &&& fails_with(r, code)
                                &&& exists|closed: Result<(), libloading::Error>|
                                    call_ensures(libloading::Library::close, (lib.library,), closed)
                            },
                    },
                }
            },
{
    let path = platform.spec_lib_path();
    let loaded = choose|loaded: Result<NvmlLib, libloading::Error>| #[trigger]
        call_ensures(load, (path,), loaded) && match loaded {
            Err(error) => r == Err::<NVML, NvmlError>(NvmlError::LibloadingError(error)),
            Ok(lib) => match lib.nvmlInit_v2 {
                Err(error) => crate::error::missing_symbol(r, error) && crate::nvml::is_released(
                    lib.library,
                ),
                Ok(entry) => exists|code: u32|
                    call_ensures(init, (entry,), code) && crate::nvml::is_started(r, lib, code),
            },
        };
    assert(call_ensures(load, (path,), loaded));
    if let Ok(lib) = loaded {
        if let Ok(entry) = lib.nvmlInit_v2 {
            let code = choose|code: u32|
                call_ensures(init, (entry,), code) && crate::nvml::is_started(r, lib, code);
            assert(call_ensures(init, (entry,), code));
        }
    }
}

/// `init_with_flags` opens the library by its name on the platform, calls the entry point with
/// these flags, and holds exactly that library if the call returns 0. Otherwise it says why not,
/// and a library that was opened is closed.
pub proof fn init_with_flags_holds_the_library<L, I>(
    platform: Platform,
    flags: InitFlags,
    load: L,
    init: I,
    r: Result<NVML, NvmlError>,
) where
    L: FnOnce(&'static str) -> Result<NvmlLib, libloading::Error>,
    I: FnOnce(EntryPoint, u32) -> u32,

    requires
        call_ensures(NVML::init_with_flags::<L, I>, (platform, flags, load, init), r),
    ensures
        exists|path: &'static str, loaded: Result<NvmlLib, libloading::Error>|
            {
                &&& #[trigger] call_ensures(load, (path,), loaded)
                &&& platform is Linux ==> path@ == "libnvidia-ml.so"@
                &&& platform is Other ==> path@ == "nvml.dll"@
                &&& match loaded {
                    Err(error) => r == Err::<NVML, NvmlError>(NvmlError::LibloadingError(error)),
                    Ok(lib) => match lib.nvmlInitWithFlags {
                        Err(loader) => {
                            &&& tells_missing(r, loader)
                            &&& exists|closed: Result<(), libloading::Error>|
                                call_ensures(libloading::Library::close, (lib.library,), closed)
                        },
                        Ok(entry) => exists|code: u32| #[trigger]
                            call_ensures(init, (entry, flags@), code) && if code == 0 {
                                r is Ok && r->Ok_0@ == lib
                            } else {
                                &&& fails_with(r, code)
                                &&& exists|closed: Result<(), libloading::Error>|
                                    call_ensures(libloading::Library::close, (lib.library,), closed)
                            },
                    },
                }
            },
{
    let path = platform.spec_lib_path();
    let loaded = choose|loaded: Result<NvmlLib, libloading::Error>| #[trigger]
        call_ensures(load, (path,), loaded) && match loaded {
            Err(error) => r == Err::<NVML, NvmlError>(NvmlError::LibloadingError(error)),
            Ok(lib) => match lib.nvmlInitWithFlags {
                Err(error) => crate::error::missing_symbol(r, error) && crate::nvml::is_released(
                    lib.library,
                ),
                Ok(entry) => exists|code: u32|
                    call_ensures(init, (entry, flags@), code) && crate::nvml::is_started(
                        r,
                        lib,
                        code,
                    ),
            },
        };
    assert(call_ensures(load, (path,), loaded));
    if let Ok(lib) = loaded {
        if let Ok(entry) = lib.nvmlInitWithFlags {
            let code = choose|code: u32|
                call_ensures(init, (entry, flags@), code) && crate::nvml::is_started(r, lib, code);
            assert(call_ensures(init, (entry, flags@), code));
        }
    }
}

/// `shutdown` calls the entry point, closes the library, and reports the error of the call, or of
/// the closing if the call returned 0. After a call that failed, it makes another.
pub proof fn shutdown_reports_the_first_failure<S, D>(
    nvml: NVML,
    shutdown: S,
    discard: D,
    r: Result<(), NvmlError>,
) where
    S: FnOnce(EntryPoint, &libloading::Library) -> u32,
    D: FnOnce(EntryPoint, &libloading::Library) -> u32,

    requires
        call_ensures(NVML::shutdown::<S, D>, (nvml, shutdown, discard), r),
    ensures
        exists|closed: Result<(), libloading::Error>|
            call_ensures(libloading::Library::close, (nvml@.library,), closed),
        match nvml@.nvmlShutdown {
            Err(loader) => tells_missing(r, loader),
            Ok(entry) => exists|code: u32, closed: Result<(), libloading::Error>|
                {
                    &&& #[trigger] call_ensures(shutdown, (entry, &nvml@.library), code)
                    &&& #[trigger] call_ensures(
                        libloading::Library::close,
                        (nvml@.library,),
                        closed,
                    )
                    &&& code != 0 ==> fails_with(r, code)
                    &&& code != 0 ==> exists|again: u32|
                        call_ensures(discard, (entry, &nvml@.library), again)
                    &&& code == 0 && closed is Ok ==> r == Ok::<(), NvmlError>(())
                    &&& code == 0 && closed is Err ==> r == Err::<(), NvmlError>(
                        NvmlError::LibloadingError(closed->Err_0),
                    )
                },
        },
{
}

/// `discard` calls the entry point and closes the library.
pub proof fn discard_shuts_down_and_closes<S>(nvml: NVML, shutdown: S) where
    S: FnOnce(EntryPoint, &libloading::Library) -> u32,

    requires
        call_ensures(NVML::discard::<S>, (nvml, shutdown), ()),
    ensures
        exists|code: u32| #[trigger]
            call_ensures(shutdown, (nvml@.nvmlShutdown->Ok_0, &nvml@.library), code),
        exists|closed: Result<(), libloading::Error>|
            call_ensures(libloading::Library::close, (nvml@.library,), closed),
{
}

/// `topology_gpu_set` asks for handles only where there are GPUs: nothing else has to be possible
/// for it to be called.
pub proof fn topology_gpu_set_asks_no_more<'nvml, C, F>(
    nvml: &'nvml NVML,
    cpu_number: u32,
    get_count: C,
    get_set: F,
) where
    C: FnOnce(EntryPoint, u32, u32) -> Reply<u32>,
    F: FnOnce(EntryPoint, u32, u32, Vec<Handle>) -> Reply<Vec<Handle>>,

    requires
        nvml@.nvmlSystemGetTopologyGpuSet matches Ok(entry) ==> {
            &&& call_requires(get_count, (entry, cpu_number, 0u32))
            &&& forall|count: Reply<u32>, handles: Vec<Handle>|
                #![trigger
                    call_ensures(get_count, (entry, cpu_number, 0u32), count),
                    call_requires(get_set, (entry, cpu_number, count.value, handles))
                ]
                call_ensures(get_count, (entry, cpu_number, 0u32), count) && count.code == 0
                    && count.value > 0 && handles@ == Seq::new(
                    count.value as nat,
                    |i: int| 0usize,
                ) ==> call_requires(get_set, (entry, cpu_number, count.value, handles))
        },
    ensures
        call_requires(NVML::topology_gpu_set::<C, F>, (nvml, cpu_number, get_count, get_set)),
{
}

/// `hic_versions` asks for cards only where there are some: nothing else has to be possible for it
/// to be called.
pub proof fn hic_versions_asks_no_more<C, F>(nvml: &NVML, get_count: C, get_versions: F) where
    C: FnOnce(EntryPoint, u32, Vec<RawHwbcEntry>) -> Reply<u32>,
    F: FnOnce(EntryPoint, u32, Vec<RawHwbcEntry>) -> Reply<Vec<RawHwbcEntry>>,

    requires
        nvml@.nvmlSystemGetHicVersion matches Ok(entry) ==> {
            &&& forall|room: Vec<RawHwbcEntry>|
                room@.len() == 1 && is_zero_hic(room@[0]) ==> #[trigger] call_requires(
                    get_count,
                    (entry, 1u32, room),
                )
            &&& forall|
                room: Vec<RawHwbcEntry>,
                count: Reply<u32>,
                total: u32,
                entries: Vec<RawHwbcEntry>,
            |
                #![trigger
                    call_ensures(get_count, (entry, 1u32, room), count),
                    call_requires(get_versions, (entry, total, entries))
                ]
                call_ensures(get_count, (entry, 1u32, room), count) && (count.code == 0
                    || count.code == 7) && total == count.value && total > 0 && entries@.len()
                    == total && (forall|i: int|
                    0 <= i < total ==> is_zero_hic(#[trigger] entries@[i])) ==> call_requires(
                    get_versions,
                    (entry, total, entries),
                )
        },
    ensures
        call_requires(NVML::hic_versions::<C, F>, (nvml, get_count, get_versions)),
{
}

/// `discover_gpus` asks NVML only where the bus ID is accepted, and then only with the attributes
/// field by field.
pub proof fn discover_gpus_asks_no_more<F>(nvml: &NVML, pci_info: PciInfo, discover: F) where
    F: FnOnce(EntryPoint, RawPciInfo) -> u32,

    requires
        nvml@.nvmlDeviceDiscoverGpus matches Ok(entry) ==> forall|raw: RawPciInfo|
            is_filled_from(raw, pci_info) && !encode_utf8(pci_info.bus_id@).contains(0u8)
                ==> #[trigger] call_requires(discover, (entry, raw)),
    ensures
        call_requires(NVML::discover_gpus::<F>, (nvml, pci_info, discover)),
{
    if let Ok(entry) = nvml@.nvmlDeviceDiscoverGpus {
        assert forall|raw: RawPciInfo| pci_info.is_raw_of(Ok(raw)) implies #[trigger] call_requires(
            discover,
            (entry, raw),
        ) by {
            conversion_is_direct(pci_info, Ok(raw));
        }
    }
}

/// `shutdown` makes another call only after one that failed.
pub proof fn shutdown_asks_no_more<S, D>(nvml: NVML, shutdown: S, discard: D) where
    S: FnOnce(EntryPoint, &libloading::Library) -> u32,
    D: FnOnce(EntryPoint, &libloading::Library) -> u32,

    requires
        nvml@.nvmlShutdown matches Ok(entry) ==> {
            &&& call_requires(shutdown, (entry, &nvml@.library))
            &&& forall|code: u32| #[trigger]
                call_ensures(shutdown, (entry, &nvml@.library), code) && code != 0
                    ==> call_requires(discard, (entry, &nvml@.library))
        },
    ensures
        call_requires(NVML::shutdown::<S, D>, (nvml, shutdown, discard)),
{
}

/// `device_by_pci_bus_id` asks NVML only for a text without a zero byte, and then only for that
/// text.
pub proof fn device_by_pci_bus_id_asks_no_more<'nvml, F>(
    nvml: &'nvml NVML,
    text: &str,
    call: F,
) where
    F: FnOnce(EntryPoint, Vec<u8>, Handle) -> Reply<Handle>,

    requires
        nvml@.nvmlDeviceGetHandleByPciBusId_v2 matches Ok(entry) ==> forall|bytes: Vec<u8>|
            !text@.contains('\0') && bytes@ == encode_utf8(text@).push(0u8)
                ==> #[trigger] call_requires(call, (entry, bytes, 0usize)),
    ensures
        call_requires(NVML::device_by_pci_bus_id::<F>, (nvml, text, call)),
{
    crate::c_string::zero_bytes_are_zero_characters(text@);
}

/// `device_by_serial` asks NVML only for a text without a zero byte, and then only for that text.
pub proof fn device_by_serial_asks_no_more<'nvml, F>(nvml: &'nvml NVML, text: &str, call: F) where
    F: FnOnce(EntryPoint, Vec<u8>, Handle) -> Reply<Handle>,

    requires
        nvml@.nvmlDeviceGetHandleBySerial matches Ok(entry) ==> forall|bytes: Vec<u8>|
            !text@.contains('\0') && bytes@ == encode_utf8(text@).push(0u8)
                ==> #[trigger] call_requires(call, (entry, bytes, 0usize)),
    ensures
        call_requires(NVML::device_by_serial::<F>, (nvml, text, call)),
{
    crate::c_string::zero_bytes_are_zero_characters(text@);
}

/// `device_by_uuid` asks NVML only for a text without a zero byte, and then only for that text.
pub proof fn device_by_uuid_asks_no_more<'nvml, F>(nvml: &'nvml NVML, text: &str, call: F) where
    F: FnOnce(EntryPoint, Vec<u8>, Handle) -> Reply<Handle>,

    requires
        nvml@.nvmlDeviceGetHandleByUUID matches Ok(entry) ==> forall|bytes: Vec<u8>|
            !text@.contains('\0') && bytes@ == encode_utf8(text@).push(0u8)
                ==> #[trigger] call_requires(call, (entry, bytes, 0usize)),
    ensures
        call_requires(NVML::device_by_uuid::<F>, (nvml, text, call)),
{
    crate::c_string::zero_bytes_are_zero_characters(text@);
}

} // verus!
