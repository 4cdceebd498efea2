use font_kit::collection::{
    analyze_bytes, font_is_collection, locate_face, prepare_font_data,
    read_number_of_fonts_from_otc_header, unpack_otc_font,
};
use font_kit::error::FontLoadingError;
use font_kit::font::Type;

const TRUETYPE: [u8; 4] = [0x00, 0x01, 0x00, 0x00];

/// A collection whose faces have the given numbers of tables. The table
/// directories follow the header in order; every record byte is set to a
/// value that tells the faces apart.
fn container(table_counts: &[u16]) -> Vec<u8> {
    let mut data = vec![b't', b't', b'c', b'f', 0, 1, 0, 0];
    data.extend_from_slice(&(table_counts.len() as u32).to_be_bytes());
    let mut offset = 12 + 4 * table_counts.len();
    for count in table_counts {
        data.extend_from_slice(&(offset as u32).to_be_bytes());
        offset += 12 + 16 * (*count as usize);
    }
    for (face, count) in table_counts.iter().enumerate() {
        data.extend_from_slice(&TRUETYPE);
        data.extend_from_slice(&count.to_be_bytes());
        data.extend_from_slice(&[0xa0 + face as u8; 6]);
        for record in 0..*count {
            data.extend_from_slice(&[(16 * (face + 1)) as u8 + record as u8; 16]);
        }
    }
    data.extend_from_slice(&[0xee; 40]);
    data
}

fn offset_of(data: &[u8], face: usize) -> usize {
    let at = 12 + 4 * face;
    u32::from_be_bytes([data[at], data[at + 1], data[at + 2], data[at + 3]]) as usize
}

#[test]
fn collection_tag_is_recognised() {
    assert!(font_is_collection(b"ttcf"));
    assert!(font_is_collection(&container(&[1])));
    assert!(!font_is_collection(b"ttc"));
    assert!(!font_is_collection(b""));
    assert!(!font_is_collection(b"OTTO\0\0\0\0"));
    assert!(!font_is_collection(b"ttcg\0\0\0\0"));
}

#[test]
fn face_count_is_read_big_endian() {
    assert_eq!(read_number_of_fonts_from_otc_header(&container(&[1, 2, 3])), Ok(3));
    let mut data = b"ttcf\0\x02\0\0".to_vec();
    data.extend_from_slice(&[0x01, 0x02, 0x03, 0x04]);
    assert_eq!(read_number_of_fonts_from_otc_header(&data), Ok(0x0102_0304));
}

#[test]
fn face_count_of_other_data_is_unknown_format() {
    assert_eq!(
        read_number_of_fonts_from_otc_header(b"OTTO\0\0\0\0\0\0\0\x01"),
        Err(FontLoadingError::UnknownFormat)
    );
    assert_eq!(read_number_of_fonts_from_otc_header(b""), Err(FontLoadingError::UnknownFormat));
}

#[test]
fn face_count_of_short_header_is_malformed() {
    assert_eq!(read_number_of_fonts_from_otc_header(b"ttcf"), Err(FontLoadingError::Parse));
    assert_eq!(
        read_number_of_fonts_from_otc_header(b"ttcf\0\x01\0\0\0\0\0"),
        Err(FontLoadingError::Parse)
    );
}

#[test]
fn unpack_each_face_of_a_collection() {
    let counts = [2u16, 0, 5, 1];
    let before = container(&counts);
    for (face, count) in counts.iter().enumerate() {
        let mut data = before.clone();
        assert_eq!(unpack_otc_font(&mut data, face as u32), Ok(()));
        let offset = offset_of(&before, face);
        let size = 12 + 16 * (*count as usize);
        assert_eq!(data.len(), before.len());
        assert_eq!(&data[..size], &before[offset..offset + size]);
        assert_eq!(&data[size..], &before[size..]);
        assert_eq!(&data[..4], &TRUETYPE);
        assert_eq!(u16::from_be_bytes([data[4], data[5]]), *count);
    }
}

#[test]
fn unpack_past_the_last_face_fails_and_leaves_the_buffer() {
    let before = container(&[2, 3]);
    let mut data = before.clone();
    assert_eq!(unpack_otc_font(&mut data, 2), Err(FontLoadingError::NoSuchFontInCollection));
    assert_eq!(data, before);
    assert_eq!(
        unpack_otc_font(&mut data, u32::MAX),
        Err(FontLoadingError::NoSuchFontInCollection)
    );
    assert_eq!(data, before);
}

#[test]
fn unpack_of_other_data_is_unknown_format() {
    let before = b"OTTO\0\x01\0\0\0\0\0\0some table data".to_vec();
    let mut data = before.clone();
    for face in [0, 1, u32::MAX] {
        assert_eq!(unpack_otc_font(&mut data, face), Err(FontLoadingError::UnknownFormat));
        assert_eq!(data, before);
        assert_eq!(locate_face(&data, face), Err(FontLoadingError::UnknownFormat));
    }

    let mut short = b"ttc".to_vec();
    assert_eq!(unpack_otc_font(&mut short, 0), Err(FontLoadingError::UnknownFormat));
    assert_eq!(short, b"ttc");

    let mut empty = vec![];
    assert_eq!(unpack_otc_font(&mut empty, 0), Err(FontLoadingError::UnknownFormat));
    assert_eq!(unpack_otc_font(&mut empty, 1), Err(FontLoadingError::UnknownFormat));
    assert!(empty.is_empty());
}

#[test]
fn unpack_with_unknown_version_tag_is_malformed() {
    let before = {
        let mut data = container(&[1, 1]);
        let offset = offset_of(&data, 1);
        data[offset..offset + 4].copy_from_slice(b"wOFF");
        data
    };
    let mut data = before.clone();
    assert_eq!(unpack_otc_font(&mut data, 1), Err(FontLoadingError::Parse));
    assert_eq!(data, before);
    assert_eq!(unpack_otc_font(&mut data, 0), Ok(()));
}

#[test]
fn unpack_accepts_every_known_version_tag() {
    for tag in [&TRUETYPE, b"OTTO", b"true", b"typ1"] {
        let mut data = container(&[1, 2]);
        let offset = offset_of(&data, 1);
        data[offset..offset + 4].copy_from_slice(tag);
        assert_eq!(unpack_otc_font(&mut data, 1), Ok(()));
        assert_eq!(&data[..4], &tag[..]);
        assert_eq!(u16::from_be_bytes([data[4], data[5]]), 2);
    }
}

#[test]
fn unpack_of_truncated_data_is_malformed() {
    let whole = container(&[1, 2]);
    let second = offset_of(&whole, 1);
    // The buffer ends inside the offsets, before the directory, inside its
    // header and inside its records.
    for len in [14, 19, second, second + 5, second + 12 + 31] {
        let before = whole[..len].to_vec();
        let mut data = before.clone();
        assert_eq!(unpack_otc_font(&mut data, 1), Err(FontLoadingError::Parse));
        assert_eq!(data, before);
    }
    let mut data = whole[..second + 12 + 32].to_vec();
    assert_eq!(unpack_otc_font(&mut data, 1), Ok(()));
}

#[test]
fn unpack_with_offset_past_the_end_is_malformed() {
    let mut before = container(&[1]);
    before[12..16].copy_from_slice(&0xffff_fff0u32.to_be_bytes());
    let mut data = before.clone();
    assert_eq!(unpack_otc_font(&mut data, 0), Err(FontLoadingError::Parse));
    assert_eq!(data, before);
}

#[test]
fn unpack_copies_forward_over_an_overlapping_region() {
    // The directory starts 4 bytes into the buffer, so that the region
    // read and the region written overlap in all but 4 bytes.
    let mut before = vec![b't', b't', b'c', b'f', 0x00, 0x01, 0x00, 0x00];
    before.extend_from_slice(&1u32.to_be_bytes());
    before.extend_from_slice(&4u32.to_be_bytes());
    before.extend((0..64).map(|i| 0x40 + i as u8));
    // Read at offset 4: tag 00 01 00 00, then the table count 00 00.
    let mut data = before.clone();
    assert_eq!(unpack_otc_font(&mut data, 0), Ok(()));
    assert_eq!(&data[..12], &before[4..16]);
    assert_eq!(&data[12..], &before[12..]);

    // With one table the region is 28 bytes long and still overlaps.
    before[8..12].copy_from_slice(&[0x00, 0x01, 0x00, 0x01]);
    before[4..8].copy_from_slice(b"true");
    let mut data = before.clone();
    assert_eq!(read_number_of_fonts_from_otc_header(&data), Ok(0x0001_0001));
    assert_eq!(locate_face(&data, 0), Ok((4, 28)));
    assert_eq!(unpack_otc_font(&mut data, 0), Ok(()));
    assert_eq!(&data[..28], &before[4..32]);
    assert_eq!(&data[28..], &before[28..]);
}

#[test]
fn unpack_with_offset_zero_leaves_the_buffer() {
    // The face's directory is the collection header itself: its tag is no
    // version tag, so the container is malformed.
    let mut before = container(&[1]);
    before[12..16].copy_from_slice(&0u32.to_be_bytes());
    let mut data = before.clone();
    assert_eq!(unpack_otc_font(&mut data, 0), Err(FontLoadingError::Parse));
    assert_eq!(data, before);
}

#[test]
fn locate_face_gives_offset_and_length() {
    let data = container(&[2, 0, 5]);
    assert_eq!(locate_face(&data, 0), Ok((24, 12 + 32)));
    assert_eq!(locate_face(&data, 1), Ok((24 + 44, 12)));
    assert_eq!(locate_face(&data, 2), Ok((24 + 44 + 12, 12 + 80)));
    assert_eq!(locate_face(&data, 3), Err(FontLoadingError::NoSuchFontInCollection));
}

#[test]
fn analyze_tells_collections_from_single_faces() {
    let data = container(&[1, 1, 1]);
    assert_eq!(analyze_bytes(&data, false), Ok(Type::Collection(3)));
    assert_eq!(analyze_bytes(&data, true), Ok(Type::Collection(3)));
    assert_eq!(analyze_bytes(b"OTTO\0\x01", true), Ok(Type::Single));
    assert_eq!(analyze_bytes(b"OTTO\0\x01", false), Err(FontLoadingError::Parse));
    assert_eq!(analyze_bytes(b"ttcf", true), Ok(Type::Single));
    assert_eq!(analyze_bytes(b"ttcf", false), Err(FontLoadingError::Parse));
}

#[test]
fn prepare_unpacks_collections_only() {
    let single = b"OTTO\0\x01\0\0\0\0\0\0".to_vec();
    assert_eq!(prepare_font_data(single.clone(), 0), Ok(single.clone()));
    assert_eq!(prepare_font_data(single.clone(), 7), Ok(single));

    let collection = container(&[1, 3]);
    let mut unpacked = collection.clone();
    assert_eq!(unpack_otc_font(&mut unpacked, 1), Ok(()));
    assert_ne!(unpacked, collection);
    assert_eq!(prepare_font_data(collection.clone(), 1), Ok(unpacked));
    assert_eq!(
        prepare_font_data(collection, 2),
        Err(FontLoadingError::NoSuchFontInCollection)
    );
}

#[test]
fn prepared_bytes_are_ready() {
    for (data, face) in [(container(&[1, 3]), 1), (b"OTTO\0\x01\0\0\0\0\0\0".to_vec(), 4)] {
        let once = prepare_font_data(data, face).unwrap();
        assert_eq!(prepare_font_data(once.clone(), 0), Ok(once));
    }
}
