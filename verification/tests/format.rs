use bsdiff_rust::format::{starts_with_magic, FormatDefect, PatchHeader};
use bsdiff_rust::utils::same_bytes;

fn header(control_len: u64, diff_len: u64, raw_size: u64, body: usize) -> Vec<u8> {
    let mut bytes = b"BSDIFF40".to_vec();
    bytes.extend_from_slice(&control_len.to_le_bytes());
    bytes.extend_from_slice(&diff_len.to_le_bytes());
    bytes.extend_from_slice(&raw_size.to_le_bytes());
    bytes.extend_from_slice(&vec![0u8; body]);
    bytes
}

#[test]
fn header_fields_are_little_endian() {
    assert_eq!(
        PatchHeader::parse(&header(0x0201, 0x0100, 0x0807_0605_0403_0201, 0x0301)),
        Ok(PatchHeader {
            control_len: 513,
            diff_len: 256,
            size_hint: Some(0x0807_0605_0403_0201),
        })
    );
    let mut bytes = header(0, 0, 0, 300);
    bytes[8] = 0x2c;
    bytes[9] = 0x01;
    assert_eq!(
        PatchHeader::parse(&bytes),
        Ok(PatchHeader { control_len: 300, diff_len: 0, size_hint: Some(0) })
    );
    bytes[15] = 0x01;
    assert_eq!(PatchHeader::parse(&bytes), Err(FormatDefect::BlocksExceedPatch));
    bytes[15] = 0;
    bytes[8] = 0;
    bytes[9] = 0;
    bytes[16] = 0xff;
    bytes[31] = 0x7f;
    assert_eq!(
        PatchHeader::parse(&bytes),
        Ok(PatchHeader { control_len: 0, diff_len: 255, size_hint: Some(0x7f00_0000_0000_0000) })
    );
}

#[test]
fn header_is_parsed_field_by_field() {
    assert_eq!(
        PatchHeader::parse(&header(3, 4, 1000, 7)),
        Ok(PatchHeader { control_len: 3, diff_len: 4, size_hint: Some(1000) })
    );
    assert_eq!(
        PatchHeader::parse(&header(0, 0, 0, 0)),
        Ok(PatchHeader { control_len: 0, diff_len: 0, size_hint: Some(0) })
    );
    assert_eq!(
        PatchHeader::parse(&header(10, 0, 5, 10)),
        Ok(PatchHeader { control_len: 10, diff_len: 0, size_hint: Some(5) })
    );
    assert_eq!(
        PatchHeader::parse(&header(0, 10, 5, 12)),
        Ok(PatchHeader { control_len: 0, diff_len: 10, size_hint: Some(5) })
    );
}

#[test]
fn size_hint_with_sign_bit_is_no_hint() {
    assert_eq!(
        PatchHeader::parse(&header(0, 0, (1u64 << 63) - 1, 0)),
        Ok(PatchHeader { control_len: 0, diff_len: 0, size_hint: Some((1u64 << 63) - 1) })
    );
    assert_eq!(
        PatchHeader::parse(&header(0, 0, 1u64 << 63, 0)),
        Ok(PatchHeader { control_len: 0, diff_len: 0, size_hint: None })
    );
    assert_eq!(
        PatchHeader::parse(&header(0, 0, (1u64 << 63) | 17, 0)),
        Ok(PatchHeader { control_len: 0, diff_len: 0, size_hint: None })
    );
    assert_eq!(
        PatchHeader::parse(&header(0, 0, u64::MAX, 0)),
        Ok(PatchHeader { control_len: 0, diff_len: 0, size_hint: None })
    );
}

#[test]
fn header_defects_are_told_apart() {
    assert_eq!(PatchHeader::parse(&[]), Err(FormatDefect::TooShort));
    assert_eq!(PatchHeader::parse(&header(0, 0, 0, 0)[..31]), Err(FormatDefect::TooShort));
    assert_eq!(PatchHeader::parse(&[0x42u8; 31]), Err(FormatDefect::TooShort));
    assert_eq!(PatchHeader::parse(&[0x42u8; 32]), Err(FormatDefect::BadMagic));
    let mut wrong = header(0, 0, 0, 0);
    wrong[7] = b'1';
    assert_eq!(PatchHeader::parse(&wrong), Err(FormatDefect::BadMagic));
    assert_eq!(PatchHeader::parse(&header(4, 4, 0, 7)), Err(FormatDefect::BlocksExceedPatch));
    assert_eq!(PatchHeader::parse(&header(8, 0, 0, 7)), Err(FormatDefect::BlocksExceedPatch));
    assert_eq!(PatchHeader::parse(&header(0, 8, 0, 7)), Err(FormatDefect::BlocksExceedPatch));
    assert_eq!(
        PatchHeader::parse(&header(u64::MAX, 1, 0, 7)),
        Err(FormatDefect::BlocksExceedPatch)
    );
    assert_eq!(
        PatchHeader::parse(&header(1u64 << 63, 1u64 << 63, 0, 7)),
        Err(FormatDefect::BlocksExceedPatch)
    );
    assert!(PatchHeader::parse(&header(4, 3, 0, 7)).is_ok());
}

#[test]
fn magic_is_bsdiff40() {
    assert!(starts_with_magic(b"BSDIFF40"));
    assert!(starts_with_magic(b"BSDIFF40rest"));
    assert!(!starts_with_magic(b"BSDIFF4"));
    assert!(!starts_with_magic(b"bsdiff40"));
    assert!(!starts_with_magic(b"BSDIFF30"));
    assert!(!starts_with_magic(b"ASDIFF40"));
    assert!(!starts_with_magic(b""));
    for at in 0..8 {
        let mut bytes = b"BSDIFF40".to_vec();
        bytes[at] ^= 1;
        assert!(!starts_with_magic(&bytes));
    }
}

#[test]
fn same_bytes_compares_byte_for_byte() {
    assert!(same_bytes(b"", b""));
    assert!(same_bytes(b"abc", b"abc"));
    assert!(!same_bytes(b"abc", b"abd"));
    assert!(!same_bytes(b"abc", b"xbc"));
    assert!(!same_bytes(b"abc", b"ab"));
    assert!(!same_bytes(b"", b"a"));
}
