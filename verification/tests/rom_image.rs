use romgen::headers::{make_ines_header, make_raw_prelude_header};
use romgen::image::{build_ines_rom, build_raw_prelude_rom, build_rom, RomError};

const BODY_LEN: usize = 0x600;
const REGION_LEN: usize = 0xFFFC - 0x8000;
const PAYLOAD_MAX: usize = REGION_LEN - BODY_LEN;
const TRAILER: [u8; 4] = [0x00, 0x86, 0x00, 0x00];

#[test]
fn total_length_matches_formula() {
    let header = vec![1u8, 2, 3];
    let payload = vec![9u8; 10];
    let rom = build_rom(&header, &payload).unwrap();
    assert_eq!(rom.len(), header.len() + REGION_LEN + 4);
}

#[test]
fn body_after_header_is_zero_when_payload_empty() {
    let header = vec![0xffu8; 7];
    let payload = Vec::new();
    let rom = build_rom(&header, &payload).unwrap();
    for i in 0..BODY_LEN {
        assert_eq!(rom[header.len() + i], 0);
    }
}

#[test]
fn last_four_bytes_are_trailer() {
    let header = vec![5u8; 11];
    let payload = vec![1u8, 2, 3];
    let rom = build_rom(&header, &payload).unwrap();
    assert_eq!(&rom[rom.len() - 4..], &TRAILER);
}

#[test]
fn building_twice_gives_identical_bytes() {
    let header = make_raw_prelude_header();
    let payload = vec![4u8, 5];
    let first = build_rom(&header, &payload).unwrap();
    let second = build_rom(&header, &payload).unwrap();
    assert_eq!(first, second);
}

#[test]
fn raw_prelude_variant_layout() {
    let header = make_raw_prelude_header();
    assert_eq!(header.len(), 899);
    assert_eq!(&header[..4], &[0xa2, 0x00, 0x86, 0x20]);
    let rom = build_raw_prelude_rom();
    assert_eq!(rom.len(), header.len() + REGION_LEN + 4);
    assert_eq!(&rom[..header.len()], &header[..]);
    assert_eq!(&rom[rom.len() - 4..], &TRAILER);
}

#[test]
fn container_variant_layout() {
    let header = make_ines_header();
    assert_eq!(
        header,
        vec![
            0x4e, 0x45, 0x53, 0x1a, 0x02, 0x00, 0x01, 0x00, 0x00, 0x00, 0x00, 0x00, 0x00, 0x00,
            0x00, 0x00
        ]
    );
    let rom = build_ines_rom();
    assert_eq!(rom.len(), 16 + REGION_LEN + 4);
    assert_eq!(rom.len(), 32784);
    assert_eq!(&rom[..4], &[0x4e, 0x45, 0x53, 0x1a]);
    assert_eq!(&rom[rom.len() - 4..], &TRAILER);
}

#[test]
fn payload_sits_between_body_and_padding() {
    let header = vec![8u8; 2];
    let payload = vec![0xaau8, 0xbb, 0xcc];
    let rom = build_rom(&header, &payload).unwrap();
    let start = header.len() + BODY_LEN;
    assert_eq!(&rom[start..start + 3], &payload[..]);
    for i in start + 3..header.len() + REGION_LEN {
        assert_eq!(rom[i], 0);
    }
}

#[test]
fn largest_payload_is_accepted() {
    let header = vec![1u8];
    let payload = vec![0xabu8; PAYLOAD_MAX];
    let rom = build_rom(&header, &payload).unwrap();
    assert_eq!(rom.len(), 1 + REGION_LEN + 4);
    assert_eq!(rom[rom.len() - 5], 0xab);
    assert_eq!(&rom[rom.len() - 4..], &TRAILER);
}

#[test]
fn oversized_payload_is_rejected() {
    let header = make_ines_header();
    let payload = vec![0u8; PAYLOAD_MAX + 1];
    let r = build_rom(&header, &payload);
    assert!(matches!(r, Err(RomError::PayloadTooLarge)));
}
