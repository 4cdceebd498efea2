//! Font collections: sniffing the header and unpacking one face in place.
//!
//! A collection starts with the tag `ttcf`. A big-endian 32-bit face count
//! stands at offset 8, and from offset 12 on one big-endian 32-bit offset per
//! face. Each offset leads to a table directory: a 4-byte version tag, a
//! big-endian 16-bit table count, six more header bytes, and one 16-byte
//! record per table.

use vstd::prelude::*;
use byteorder::{BigEndian, ReadBytesExt};
use crate::error::FontLoadingError;
use crate::font::Type;

verus! {

/// Offset of the face count in a collection header.
pub const FACE_COUNT_POS: usize = 8;

/// Offset of the first table-directory offset in a collection header.
pub const FACE_OFFSETS_POS: usize = 12;

/// Bytes of a table directory before its first record.
pub const DIRECTORY_HEADER_LEN: usize = 12;

/// Bytes of one table record.
pub const TABLE_RECORD_LEN: usize = 16;

/// The buffer starts with the collection tag `ttcf`.
pub open spec fn is_collection(s: Seq<u8>) -> bool {
    s.len() >= 4 && s[0] == 0x74 && s[1] == 0x74 && s[2] == 0x63 && s[3] == 0x66
}

/// The four bytes at `pos` are one of the known version tags of a table
/// directory: `00 01 00 00`, `OTTO`, `true` or `typ1`.
pub open spec fn is_sfnt_version(s: Seq<u8>, pos: int) -> bool {
    0 <= pos && pos + 4 <= s.len() && (
        (s[pos] == 0x00 && s[pos + 1] == 0x01 && s[pos + 2] == 0x00 && s[pos + 3] == 0x00)
        || (s[pos] == 0x4f && s[pos + 1] == 0x54 && s[pos + 2] == 0x54 && s[pos + 3] == 0x4f)
        || (s[pos] == 0x74 && s[pos + 1] == 0x72 && s[pos + 2] == 0x75 && s[pos + 3] == 0x65)
        || (s[pos] == 0x74 && s[pos + 1] == 0x79 && s[pos + 2] == 0x70 && s[pos + 3] == 0x31)
    )
}

/// The big-endian 32-bit number in the four bytes at `pos`.
pub open spec fn be_u32(s: Seq<u8>, pos: int) -> int
    recommends
        0 <= pos,
        pos + 4 <= s.len(),
{
    s[pos] as int * 0x100_0000 + s[pos + 1] as int * 0x1_0000 + s[pos + 2] as int * 0x100
        + s[pos + 3] as int
}

/// The big-endian 16-bit number in the two bytes at `pos`.
pub open spec fn be_u16(s: Seq<u8>, pos: int) -> int
    recommends
        0 <= pos,
        pos + 2 <= s.len(),
{
    s[pos] as int * 0x100 + s[pos + 1] as int
}

/// Reads a big-endian `u32` at `pos` with byteorder's
/// `ReadBytesExt::read_u32::<BigEndian>` on the rest of the buffer. That
/// method takes the next four bytes and fails when fewer are left; the
/// contract says so, and that the number read is the big-endian value of
/// those bytes.
#[verifier::external_body]
fn read_u32_be(data: &[u8], pos: usize) -> (r: Option<u32>)
    requires
        pos <= data@.len(),
    ensures
        r is Some <==> pos + 4 <= data@.len(),
        r is Some ==> r->0 as int == be_u32(data@, pos as int),
{
    (&data[pos..]).read_u32::<BigEndian>().ok()
}

/// Reads a big-endian `u16` at `pos` with byteorder's
/// `ReadBytesExt::read_u16::<BigEndian>` on the rest of the buffer. That
/// method takes the next two bytes and fails when fewer are left; the
/// contract says so, and that the number read is the big-endian value of
/// those bytes.
#[verifier::external_body]
fn read_u16_be(data: &[u8], pos: usize) -> (r: Option<u16>)
    requires
        pos <= data@.len(),
    ensures
        r is Some <==> pos + 2 <= data@.len(),
        r is Some ==> r->0 as int == be_u16(data@, pos as int),
{
    (&data[pos..]).read_u16::<BigEndian>().ok()
}

/// Whether the buffer starts with the collection tag.
pub fn font_is_collection(header: &[u8]) -> (r: bool)
    ensures
        r == is_collection(header@),
{
    header.len() >= 4 && header[0] == 0x74 && header[1] == 0x74 && header[2] == 0x63
        && header[3] == 0x66
}

/// What the header of `s` says of its number of faces.
pub open spec fn face_count(s: Seq<u8>) -> Result<u32, FontLoadingError> {
    if !is_collection(s) {
        Err(FontLoadingError::UnknownFormat)
    } else if s.len() < FACE_COUNT_POS + 4 {
        Err(FontLoadingError::Parse)
    } else {
        Ok(be_u32(s, FACE_COUNT_POS as int) as u32)
    }
}

/// Reads the number of faces from a collection header. A buffer without the
/// collection tag is of unknown format; one that ends before the count is
/// malformed.
pub fn read_number_of_fonts_from_otc_header(header: &[u8]) -> (r: Result<u32, FontLoadingError>)
    ensures
        r == face_count(header@),
{
    if !font_is_collection(header) {
        return Err(FontLoadingError::UnknownFormat);
    }
    if header.len() < FACE_COUNT_POS {
        return Err(FontLoadingError::Parse);
    }
    match read_u32_be(header, FACE_COUNT_POS) {
        Some(count) => Ok(count),
        None => Err(FontLoadingError::Parse),
    }
}

/// Where the table directory of face `font_index` starts, when the header
/// reaches as far as that face's entry.
pub open spec fn directory_offset(s: Seq<u8>, font_index: u32) -> int {
    be_u32(s, FACE_OFFSETS_POS + 4 * font_index)
}

/// The number of tables that the directory at `offset` records.
pub open spec fn table_count(s: Seq<u8>, offset: int) -> int {
    be_u16(s, offset + 4)
}

/// The length in bytes of a table directory with `tables` records.
pub open spec fn directory_len(tables: int) -> int {
    DIRECTORY_HEADER_LEN + TABLE_RECORD_LEN * tables
}

/// The table directory of face `font_index` lies whole inside `s` and starts
/// with a known version tag.
pub open spec fn directory_is_sound(s: Seq<u8>, font_index: u32) -> bool {
    &&& FACE_OFFSETS_POS + 4 * font_index + 4 <= s.len()
    &&& is_sfnt_version(s, directory_offset(s, font_index))
    &&& directory_offset(s, font_index) + 6 <= s.len()
    &&& directory_offset(s, font_index) + directory_len(
        table_count(s, directory_offset(s, font_index)),
    ) <= s.len()
}

/// Where the table directory of face `font_index` lies in the collection
/// `s`, as offset and length; or the error, in the order in which the header
/// is validated: the tag, the face count, the face index, the directory.
pub open spec fn located(s: Seq<u8>, font_index: u32) -> Result<(int, int), FontLoadingError> {
    match face_count(s) {
        Err(e) => Err(e),
        Ok(count) => if font_index >= count {
            Err(FontLoadingError::NoSuchFontInCollection)
        } else if !directory_is_sound(s, font_index) {
            Err(FontLoadingError::Parse)
        } else {
            let offset = directory_offset(s, font_index);
            Ok((offset, directory_len(table_count(s, offset))))
        },
    }
}

/// What unpacking face `font_index` makes of the buffer `s`: the face's
/// table directory moved to the front, the rest of the buffer as it was; or
/// the error that locating the directory gives.
pub open spec fn unpacked(s: Seq<u8>, font_index: u32) -> Result<Seq<u8>, FontLoadingError> {
    match located(s, font_index) {
        Err(e) => Err(e),
        Ok((offset, size)) => Ok(
            s.subrange(offset, offset + size) + s.subrange(size, s.len() as int),
        ),
    }
}

/// Whether the four bytes at `pos` are a known version tag.
fn has_sfnt_version(data: &[u8], pos: usize) -> (r: bool)
    requires
        pos + 4 <= data@.len(),
    ensures
        r == is_sfnt_version(data@, pos as int),
{
    let b0: u8 = data[pos];
    let b1: u8 = data[pos + 1];
    let b2: u8 = data[pos + 2];
    let b3: u8 = data[pos + 3];
    (b0 == 0x00 && b1 == 0x01 && b2 == 0x00 && b3 == 0x00)
        || (b0 == 0x4f && b1 == 0x54 && b2 == 0x54 && b3 == 0x4f)
        || (b0 == 0x74 && b1 == 0x72 && b2 == 0x75 && b3 == 0x65)
        || (b0 == 0x74 && b1 == 0x79 && b2 == 0x70 && b3 == 0x31)
}

/// Finds the table directory of face `font_index` of a collection and its
/// length, after validating everything that unpacking relies on. The buffer
/// is only read.
pub fn locate_face(data: &[u8], font_index: u32) -> (r: Result<(usize, usize), FontLoadingError>)
    ensures
        match r {
            Ok((offset, size)) => {
                &&& located(data@, font_index) == Ok::<(int, int), FontLoadingError>(
                    (offset as int, size as int),
                )
                &&& offset + size <= data@.len()
            },
            Err(e) => located(data@, font_index) == Err::<(int, int), FontLoadingError>(e),
        },
{
    let count: u32 = match read_number_of_fonts_from_otc_header(data) {
        Ok(count) => count,
        Err(e) => { return Err(e); },
    };
    if font_index >= count {
        return Err(FontLoadingError::NoSuchFontInCollection);
    }
    let len: u64 = data.len() as u64;
    let entry_pos: u64 = 12 + 4 * (font_index as u64);
    if entry_pos + 4 > len {
        return Err(FontLoadingError::Parse);
    }
    let offset: u64 = match read_u32_be(data, entry_pos as usize) {
        Some(offset) => offset as u64,
        None => { return Err(FontLoadingError::Parse); },
    };
    if offset + 6 > len {
        return Err(FontLoadingError::Parse);
    }
    if !has_sfnt_version(data, offset as usize) {
        return Err(FontLoadingError::Parse);
    }
    let tables: u64 = match read_u16_be(data, (offset + 4) as usize) {
        Some(tables) => tables as u64,
        None => { return Err(FontLoadingError::Parse); },
    };
    let size: u64 = 12 + 16 * tables;
    if offset + size > len {
        return Err(FontLoadingError::Parse);
    }
    Ok((offset as usize, size as usize))
}

/// Unpacks face `font_index` of a collection in place: its table directory
/// is copied to the front of the buffer, so that the buffer then reads as a
/// font of one face. The records keep their offsets, which still lead to the
/// table data further on. A buffer that is no collection is of unknown
/// format, whatever face is asked for. On any error the buffer is left as it
/// was.
pub fn unpack_otc_font(data: &mut Vec<u8>, font_index: u32) -> (r: Result<(), FontLoadingError>)
    ensures
        final(data)@.len() == old(data)@.len(),
        match unpacked(old(data)@, font_index) {
            Ok(bytes) => r == Ok::<(), FontLoadingError>(()) && final(data)@ == bytes,
            Err(e) => r == Err::<(), FontLoadingError>(e) && final(data)@ == old(data)@,
        },
{
    let (source, size) = match locate_face(data.as_slice(), font_index) {
        Ok(found) => found,
        Err(e) => { return Err(e); },
    };
    // The copy runs forward: the byte read at step `offset` lies at or after
    // the byte written, so no byte is overwritten before it is read.
    let mut offset: usize = 0;
    while offset < size
        invariant
            offset <= size,
            source + size <= data.len(),
            data@.len() == old(data)@.len(),
            forall|i: int| 0 <= i < offset ==> data@[i] == old(data)@[source + i],
            forall|i: int| offset <= i < data@.len() ==> data@[i] == old(data)@[i],
        decreases size - offset,
    {
        let byte: u8 = data[source + offset];
        data.set(offset, byte);
        offset = offset + 1;
    }
    proof {
        let bytes = unpacked(old(data)@, font_index)->Ok_0;
        assert(data@ =~= bytes);
    }
    Ok(())
}

/// Unpacking a face that the collection holds, with a sound table
/// directory, succeeds. The buffer keeps its length and then starts with a
/// table directory that has a known version tag and records as many tables
/// as the face's directory did.
pub proof fn lemma_unpack_in_range(s: Seq<u8>, font_index: u32)
    requires
        face_count(s) is Ok,
        font_index < face_count(s)->Ok_0,
        directory_is_sound(s, font_index),
    ensures
        unpacked(s, font_index) is Ok,
        unpacked(s, font_index)->Ok_0.len() == s.len(),
        is_sfnt_version(unpacked(s, font_index)->Ok_0, 0),
        table_count(unpacked(s, font_index)->Ok_0, 0) == table_count(
            s,
            directory_offset(s, font_index),
        ),
{
}

/// Unpacking a face index at or past the collection's face count fails with
/// `NoSuchFontInCollection`, whatever else the buffer holds.
pub proof fn lemma_unpack_out_of_range(s: Seq<u8>, font_index: u32)
    requires
        face_count(s) is Ok,
        font_index >= face_count(s)->Ok_0,
    ensures
        unpacked(s, font_index) == Err::<Seq<u8>, FontLoadingError>(
            FontLoadingError::NoSuchFontInCollection,
        ),
{
}

/// What a buffer is found to hold, given whether the font service parsed it
/// as a font of one face: a buffer with a readable collection header is a
/// collection, whatever the service says.
pub open spec fn analyzed(s: Seq<u8>, parses_as_single: bool) -> Result<Type, FontLoadingError> {
    match face_count(s) {
        Ok(count) => Ok(Type::Collection(count)),
        Err(_) => if parses_as_single {
            Ok(Type::Single)
        } else {
            Err(FontLoadingError::Parse)
        },
    }
}

/// Sniffs the kind of container in `font_data`. `parses_as_single` is the
/// font service's verdict on the buffer as a font of one face; it is only
/// looked at where the buffer has no readable collection header.
pub fn analyze_bytes(font_data: &[u8], parses_as_single: bool) -> (r: Result<
    Type,
    FontLoadingError,
>)
    ensures
        r == analyzed(font_data@, parses_as_single),
{
    match read_number_of_fonts_from_otc_header(font_data) {
        Ok(count) => Ok(Type::Collection(count)),
        Err(_) => if parses_as_single {
            Ok(Type::Single)
        } else {
            Err(FontLoadingError::Parse)
        },
    }
}

/// The bytes to hand to the font service for face `font_index` of `s`: a
/// collection unpacked, any other buffer as it is.
pub open spec fn prepared(s: Seq<u8>, font_index: u32) -> Result<Seq<u8>, FontLoadingError> {
    if is_collection(s) {
        unpacked(s, font_index)
    } else {
        Ok(s)
    }
}

/// Makes a buffer ready for a font service that loads single faces only: a
/// collection is unpacked to the face asked for, anything else is passed on
/// untouched.
pub fn prepare_font_data(font_data: Vec<u8>, font_index: u32) -> (r: Result<
    Vec<u8>,
    FontLoadingError,
>)
    ensures
        match prepared(font_data@, font_index) {
            Ok(bytes) => r is Ok && r->Ok_0@ == bytes,
            Err(e) => r == Err::<Vec<u8>, FontLoadingError>(e),
        },
{
    let mut font_data = font_data;
    if font_is_collection(font_data.as_slice()) {
        match unpack_otc_font(&mut font_data, font_index) {
            Ok(()) => Ok(font_data),
            Err(e) => Err(e),
        }
    } else {
        Ok(font_data)
    }
}

/// Bytes that were prepared once are ready: preparing them again, as the
/// face 0 that they now are, changes nothing. A face loaded from such a copy
/// of its own data is loaded from the same bytes.
pub proof fn lemma_prepared_is_stable(s: Seq<u8>, font_index: u32)
    requires
        prepared(s, font_index) is Ok,
    ensures
        prepared(prepared(s, font_index)->Ok_0, 0) == prepared(s, font_index),
{
    if is_collection(s) {
        let bytes = unpacked(s, font_index)->Ok_0;
        assert(is_sfnt_version(bytes, 0));
        assert(!is_collection(bytes));
    }
}

} // verus!
