//! C strings: the texts that NVML reads end at their first zero byte, and so do those that it
//! writes into a buffer.
use crate::error::{NulError, NvmlError};
use vstd::prelude::*;
use vstd::string::*;
use vstd::utf8::*;

verus! {

/// The error that `core::str::from_utf8` gives for bytes that are not UTF-8.
pub uninterp spec fn utf8_error(bytes: Seq<u8>) -> core::str::Utf8Error;

/// `core::str::from_utf8` accepts a byte string exactly if it is UTF-8, and then returns the
/// text that the bytes encode. Which error it gives for other bytes is a function of the bytes
/// alone; nothing more is claimed of that error.
pub assume_specification<'a>[ core::str::from_utf8 ](v: &'a [u8]) -> (r: Result<
    &'a str,
    core::str::Utf8Error,
>)
    ensures
        r is Ok <==> valid_utf8(v@),
        r matches Ok(text) ==> text.spec_bytes() == v@,
        r matches Err(error) ==> error == utf8_error(v@),
;

/// The bytes before the first zero byte; all of them if there is none.
pub open spec fn before_nul(bytes: Seq<u8>) -> Seq<u8> {
    match bytes.index_of_first(0u8) {
        Some(end) => bytes.take(end),
        None => bytes,
    }
}

/// `r` is what a buffer says: the text before its first zero byte, or the error that this is
/// not UTF-8.
pub open spec fn is_text_of(r: Result<String, NvmlError>, buffer: Seq<u8>) -> bool {
    let bytes = before_nul(buffer);
    if valid_utf8(bytes) {
        r matches Ok(text) && text@ == decode_utf8(bytes)
    } else {
        r == Err::<String, NvmlError>(NvmlError::Utf8Error(utf8_error(bytes)))
    }
}

/// The position of the first zero byte, if there is one.
fn nul_position(bytes: &[u8]) -> (r: Option<usize>)
    ensures
        match r {
            Some(position) => bytes@.index_of_first(0u8) == Some(position as int),
            None => bytes@.index_of_first(0u8) is None,
        },
{
    proof {
        bytes@.index_of_first_ensures(0u8);
    }
    let mut i: usize = 0;
    while i < bytes.len()
        invariant
            i <= bytes@.len(),
            forall|j: int| 0 <= j < i ==> bytes@[j] != 0u8,
            match bytes@.index_of_first(0u8) {
                Some(index) => 0 <= index < bytes@.len() && bytes@[index] == 0u8 && (forall|j: int|
                    0 <= j < index ==> bytes@[j] != 0u8),
                None => !bytes@.contains(0u8),
            },
        decreases bytes@.len() - i,
    {
        if bytes[i] == 0 {
            assert(bytes@.contains(0u8));
            return Some(i);
        }
        i = i + 1;
    }
    None
}

/// Reads the text in a buffer that NVML has filled in.
///
/// The text ends before the first zero byte. A buffer without one is read to its end and no
/// further.
pub fn read_text(buffer: &[u8]) -> (r: Result<String, NvmlError>)
    ensures
        is_text_of(r, buffer@),
{
    let end: usize = match nul_position(buffer) {
        Some(position) => position,
        None => buffer.len(),
    };
    proof {
        buffer@.index_of_first_ensures(0u8);
        assert(buffer@.take(buffer@.len() as int) =~= buffer@);
    }
    let bytes = vstd::slice::slice_subrange(buffer, 0, end);
    assert(bytes@ =~= before_nul(buffer@));
    match core::str::from_utf8(bytes) {
        Ok(text) => {
            proof {
                encode_utf8_decode_utf8(text@);
            }
            Ok(text.to_owned())
        },
        Err(error) => Err(NvmlError::Utf8Error(error)),
    }
}

/// `bytes` is the C string for `text`: its UTF-8 bytes, none of them zero, and a zero byte.
pub open spec fn is_c_string(bytes: Seq<u8>, text: Seq<char>) -> bool {
    !encode_utf8(text).contains(0u8) && bytes == encode_utf8(text).push(0u8)
}

/// `r` refuses `bytes` as a C string, for the zero byte that they have at `position` and nowhere
/// before.
pub open spec fn is_nul_error<T>(r: Result<T, NvmlError>, bytes: Seq<u8>, position: int) -> bool {
    r matches Err(NvmlError::NulError(error)) && error.nul_position == position && error.bytes@
        == bytes
}

/// Turns a text into the bytes of a C string, the closing zero byte among them.
pub fn c_string(text: &str) -> (r: Result<Vec<u8>, NvmlError>)
    ensures
        match encode_utf8(text@).index_of_first(0u8) {
            None => r matches Ok(bytes) && is_c_string(bytes@, text@),
            Some(position) => is_nul_error(r, encode_utf8(text@), position),
        },
{
    let text_bytes = text.as_bytes();
    let mut bytes: Vec<u8> = Vec::new();
    bytes.extend_from_slice(text_bytes);
    assert(bytes@ =~= encode_utf8(text@));
    proof {
        encode_utf8(text@).index_of_first_ensures(0u8);
    }
    match nul_position(text_bytes) {
        None => {
            bytes.push(0);
            Ok(bytes)
        },
        Some(position) => Err(NvmlError::NulError(NulError { nul_position: position, bytes })),
    }
}

/// The UTF-8 bytes of a character have a zero byte only if it is the zero character.
proof fn character_has_zero_byte(c: char)
    ensures
        encode_scalar(c as u32).contains(0u8) <==> c == '\0',
{
    let scalar = c as u32;
    let bytes = encode_scalar(scalar);
    if has_width_1_encoding(scalar) {
        assert(bytes[0] == leading_byte_width_1(scalar));
        assert((scalar & 0x7F) as u8 == 0u8 <==> scalar == 0) by (bit_vector)
            requires
                scalar <= 0x7F,
        ;
    } else {
        assert(0xC0u8 | ((scalar >> 6) & 0x1F) as u8 != 0u8) by (bit_vector);
        assert(0xE0u8 | ((scalar >> 12) & 0x0F) as u8 != 0u8) by (bit_vector);
        assert(0xF0u8 | ((scalar >> 18) & 0x07) as u8 != 0u8) by (bit_vector);
        assert(0x80u8 | (scalar & 0x3F) as u8 != 0u8) by (bit_vector);
        assert(0x80u8 | ((scalar >> 6) & 0x3F) as u8 != 0u8) by (bit_vector);
        assert(0x80u8 | ((scalar >> 12) & 0x3F) as u8 != 0u8) by (bit_vector);
    }
}

/// A text can become a C string exactly if it has no zero character: its bytes have a zero byte
/// only for that.
pub proof fn zero_bytes_are_zero_characters(text: Seq<char>)
    ensures
        encode_utf8(text).contains(0u8) <==> text.contains('\0'),
    decreases text.len(),
{
    if text.len() > 0 {
        let c: char = text[0];
        let first = encode_scalar(c as u32);
        let rest = text.drop_first();
        character_has_zero_byte(c);
        zero_bytes_are_zero_characters(rest);
        let bytes = first + encode_utf8(rest);
        if first.contains(0u8) {
            let i = first.index_of(0u8);
            assert(bytes[i] == 0u8);
        }
        if encode_utf8(rest).contains(0u8) {
            let i = encode_utf8(rest).index_of(0u8);
            assert(bytes[first.len() + i] == 0u8);
        }
        if bytes.contains(0u8) {
            let i = bytes.index_of(0u8);
            assert(bytes[i] == 0u8);
            if i < first.len() {
                assert(first[i] == 0u8);
            } else {
                assert(encode_utf8(rest)[i - first.len()] == 0u8);
            }
        }
        if rest.contains('\0') {
            let i = rest.index_of('\0');
            assert(text[i + 1] == '\0');
        }
        if text.contains('\0') && text[0] != '\0' {
            let i = text.index_of('\0');
            assert(rest[i - 1] == '\0');
        }
    }
}

/// A text that was written as a C string is read back as it was, whatever follows it in the
/// buffer.
pub proof fn c_string_reads_back(
    text: Seq<char>,
    bytes: Seq<u8>,
    rest: Seq<u8>,
    r: Result<String, NvmlError>,
)
    requires
        is_c_string(bytes, text),
        is_text_of(r, bytes + rest),
    ensures
        r matches Ok(read) && read@ == text,
{
    let buffer = bytes + rest;
    let end = encode_utf8(text).len() as int;
    buffer.index_of_first_ensures(0u8);
    assert(buffer[end] == 0u8);
    assert forall|i: int| 0 <= i < end implies buffer[i] != 0u8 by {
        assert(buffer[i] == encode_utf8(text)[i]);
    }
    assert(before_nul(buffer) =~= encode_utf8(text));
    encode_utf8_valid_utf8(text);
    encode_utf8_decode_utf8(text);
}

/// A text that was read is cropped to its buffer: its bytes are those that the buffer starts
/// with, and no zero byte is among them.
pub proof fn text_is_cropped(buffer: Seq<u8>, text: String)
    requires
        is_text_of(Ok(text), buffer),
    ensures
        encode_utf8(text@).is_prefix_of(buffer),
        !encode_utf8(text@).contains(0u8),
{
    buffer.index_of_first_ensures(0u8);
    decode_utf8_encode_utf8(before_nul(buffer));
}

} // verus!
