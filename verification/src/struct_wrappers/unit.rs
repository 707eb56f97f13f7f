//! Structures that describe units.
use crate::bindings::RawHwbcEntry;
use crate::c_string::read_text;
use crate::error::NvmlError;
use vstd::prelude::*;
use vstd::utf8::*;

verus! {

/// The ID and the firmware version of a host interface card.
#[derive(Debug)]
pub struct HwbcEntry {
    pub id: u32,
    pub firmware_version: String,
}

impl HwbcEntry {
    /// The firmware version of `raw` can be read.
    pub open spec fn has_text(raw: RawHwbcEntry) -> bool {
        valid_utf8(crate::c_string::before_nul(raw.firmwareVersion@))
    }

    /// `r` holds what `raw` holds, or the error that its text is not UTF-8.
    pub open spec fn is_entry_of(r: Result<HwbcEntry, NvmlError>, raw: RawHwbcEntry) -> bool {
        match r {
            Ok(entry) => entry.id == raw.hwbcId && crate::c_string::is_text_of(
                Ok(entry.firmware_version),
                raw.firmwareVersion@,
            ),
            Err(error) => crate::c_string::is_text_of(Err(error), raw.firmwareVersion@),
        }
    }

    /// Reads the structure that NVML has filled in.
    pub fn try_from(raw: RawHwbcEntry) -> (r: Result<Self, NvmlError>)
        ensures
            Self::is_entry_of(r, raw),
    {
        match read_text(&raw.firmwareVersion) {
            Ok(firmware_version) => Ok(HwbcEntry { id: raw.hwbcId, firmware_version }),
            Err(error) => Err(error),
        }
    }

    /// `r` holds what the elements of `raw` hold, in their order, or the error of the first one
    /// whose text is not UTF-8.
    pub open spec fn are_entries_of(
        r: Result<Vec<HwbcEntry>, NvmlError>,
        raw: Seq<RawHwbcEntry>,
    ) -> bool {
        match r {
            Ok(entries) => entries@.len() == raw.len() && forall|i: int|
                0 <= i < raw.len() ==> Self::is_entry_of(Ok(#[trigger] entries@[i]), raw[i]),
            Err(error) => exists|i: int|
                0 <= i < raw.len() && #[trigger] Self::is_entry_of(Err(error), raw[i]) && forall|
                    j: int,
                |
                    0 <= j < i ==> #[trigger] Self::has_text(raw[j]),
        }
    }

    /// Reads all the structures that NVML has filled in, up to the first that cannot be read.
    pub fn try_from_all(raw: &[RawHwbcEntry]) -> (r: Result<Vec<Self>, NvmlError>)
        ensures
            Self::are_entries_of(r, raw@),
    {
        let mut entries: Vec<HwbcEntry> = Vec::new();
        let mut i: usize = 0;
        while i < raw.len()
            invariant
                i <= raw@.len(),
                entries@.len() == i,
                forall|j: int|
                    0 <= j < i ==> Self::is_entry_of(Ok(#[trigger] entries@[j]), raw@[j]),
                forall|j: int| 0 <= j < i ==> #[trigger] Self::has_text(raw@[j]),
            decreases raw@.len() - i,
        {
            let entry = HwbcEntry::try_from(raw[i])?;
            entries.push(entry);
            i = i + 1;
        }
        Ok(entries)
    }
}

/// Entries are read all or not at all: reading them succeeds exactly if every one can be read.
pub proof fn entries_are_read_all_or_none(
    raw: Seq<RawHwbcEntry>,
    r: Result<Vec<HwbcEntry>, NvmlError>,
)
    requires
        HwbcEntry::are_entries_of(r, raw),
    ensures
        r is Ok <==> forall|i: int| 0 <= i < raw.len() ==> #[trigger] HwbcEntry::has_text(raw[i]),
{
    match r {
        Ok(entries) => {
            assert forall|i: int| 0 <= i < raw.len() implies #[trigger] HwbcEntry::has_text(
                raw[i],
            ) by {
                assert(HwbcEntry::is_entry_of(Ok(entries@[i]), raw[i]));
            }
        },
        Err(error) => {
            let i = choose|i: int|
                0 <= i < raw.len() && #[trigger] HwbcEntry::is_entry_of(Err(error), raw[i]);
            assert(!HwbcEntry::has_text(raw[i]));
        },
    }
}

} // verus!
