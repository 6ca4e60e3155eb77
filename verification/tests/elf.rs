use blflash::chip::{Bl602, Chip};
use blflash::elf::{
    flatten, is_elf, CodeSegment, FirmwareImage, HeaderKind, ProgramHeader, RomSegment,
};
use blflash::Error;
use std::cmp::Ordering;

fn chip() -> Bl602 {
    Bl602::new(vec![1, 2, 3], vec![])
}

fn load(offset: u64, file_size: u64, physical_addr: u64) -> ProgramHeader {
    ProgramHeader { kind: HeaderKind::Load, offset, file_size, physical_addr }
}

fn file() -> Vec<u8> {
    (0..0x2000u32).map(|i| (i % 256) as u8).collect()
}

fn firmware() -> FirmwareImage {
    let headers = vec![
        load(0x1000, 0x400, 0x2300_0000),
        ProgramHeader {
            kind: HeaderKind::Other,
            offset: 0x100,
            file_size: 0x10,
            physical_addr: 0x2300_8000,
        },
        load(0x1400, 0x800, 0x2301_0000),
        load(0x1c00, 0, 0x2302_0000),
        load(0, 0x100, 0x2303_0000),
        load(0x1c00, 0x20, 0x4200_0000),
    ];
    FirmwareImage::from_elf(0x1_2300_0010, headers, file()).unwrap()
}

#[test]
fn elf_magic_is_detected() {
    assert!(is_elf(&[0x7f, 0x45, 0x4c, 0x46]));
    assert!(is_elf(&[0x7f, 0x45, 0x4c, 0x46, 1, 1, 1]));
    assert!(!is_elf(&[0x7f, 0x45, 0x4c]));
    assert!(!is_elf(&[0x7f, 0x45, 0x4c, 0x47]));
    assert!(!is_elf(&[0x7e, 0x45, 0x4c, 0x46]));
    assert!(!is_elf(&[]));
}

#[test]
fn entry_keeps_the_low_32_bits() {
    assert_eq!(firmware().entry(), 0x2300_0010);
}

#[test]
fn segments_are_the_load_headers_with_a_payload_off_the_start() {
    let fw = firmware();
    let segments = fw.segments();
    let seen: Vec<(u32, u32)> = segments.iter().map(|s| (s.addr, s.size)).collect();
    assert_eq!(
        seen,
        vec![(0x2300_0000, 0x400), (0x2301_0000, 0x800), (0x4200_0000, 0x20)]
    );
    assert_eq!(segments[0].data, &file()[0x1000..0x1400]);
    assert_eq!(segments[1].data, &file()[0x1400..0x1c00]);
    assert_eq!(segments[2].data, &file()[0x1c00..0x1c20]);
}

#[test]
fn payload_outside_the_file_is_an_invalid_elf() {
    let r = FirmwareImage::from_elf(0, vec![load(0x1000, 0x1001, 0x2300_0000)], file());
    assert!(matches!(r, Err(Error::InvalidElf)));
    let r = FirmwareImage::from_elf(0, vec![load(0x3000, 1, 0x2300_0000)], file());
    assert!(matches!(r, Err(Error::InvalidElf)));
    let r = FirmwareImage::from_elf(0, vec![load(u64::MAX, u64::MAX, 0)], file());
    assert!(matches!(r, Err(Error::InvalidElf)));
    // up to the end of the file is fine, and so is what yields no segment
    let r = FirmwareImage::from_elf(0, vec![load(0x1000, 0x1000, 0x2300_0000)], file());
    assert!(r.is_ok());
    let other = ProgramHeader {
        kind: HeaderKind::Other,
        offset: 0x9000,
        file_size: 0x9000,
        physical_addr: 0,
    };
    let r = FirmwareImage::from_elf(0, vec![other, load(0, 0x9000, 0)], file());
    assert!(r.is_ok());
    assert!(r.unwrap().segments().is_empty());
}

#[test]
fn flash_segments_lie_within_sixteen_mebibytes() {
    let fw = firmware();
    let roms = fw.rom_segments(&chip());
    let seen: Vec<(u32, usize)> = roms.iter().map(|s| (s.addr, s.data.len())).collect();
    assert_eq!(seen, vec![(0x0, 0x400), (0x10000, 0x800)]);
    for rom in &roms {
        assert!(rom.addr < 0x0100_0000);
        assert!(rom.addr as usize + rom.data.len() <= 0x0100_0000);
    }
    assert_eq!(roms[0].data, file()[0x1000..0x1400]);
}

#[test]
fn flash_window_of_the_bl602() {
    let chip = chip();
    assert!(chip.addr_is_flash(0x2300_0000));
    assert!(chip.addr_is_flash(0x23FF_FFFF));
    assert!(!chip.addr_is_flash(0x2400_0000));
    assert!(!chip.addr_is_flash(0x22FF_FFFF));
    let data = [1u8, 2, 3];
    let kept = chip.get_flash_segment(CodeSegment::from_slice(0x23FF_FFFF, &data)).unwrap();
    assert_eq!((kept.addr, kept.data), (0x00FF_FFFF, vec![1, 2, 3]));
    assert!(chip.get_flash_segment(CodeSegment::from_slice(0x2400_0000, &data)).is_none());
    assert!(chip.get_flash_segment(CodeSegment::from_slice(0x22FF_FFFF, &data)).is_none());
    assert!(chip.get_flash_segment(CodeSegment::from_slice(0, &data)).is_none());
    assert_eq!(chip.get_eflash_loader(), [1, 2, 3]);
}

#[test]
fn flat_image_fills_the_gaps_with_ff() {
    let fw = firmware();
    let bin = fw.to_flash_bin(&chip()).unwrap();
    assert_eq!(bin.len(), 0x10800);
    assert_eq!(bin[..0x400], file()[0x1000..0x1400]);
    assert!(bin[0x400..0x10000].iter().all(|b| *b == 0xFF));
    assert_eq!(bin[0x10000..], file()[0x1400..0x1c00]);
}

#[test]
fn flat_image_of_no_segment_is_empty() {
    let fw = FirmwareImage::from_elf(0, vec![], file()).unwrap();
    assert_eq!(fw.to_flash_bin(&chip()), Ok(vec![]));
    assert_eq!(flatten(&vec![]), Ok(vec![]));
}

#[test]
fn later_segment_covers_an_earlier_one() {
    let segments = vec![
        RomSegment::from_vec(2, vec![1, 1, 1, 1]),
        RomSegment::from_vec(4, vec![2, 2, 2]),
        RomSegment::from_slice(0, &[3]),
    ];
    assert_eq!(flatten(&segments), Ok(vec![3, 0xFF, 1, 1, 2, 2, 2]));
}

#[test]
fn flat_image_beyond_the_offsets_is_refused() {
    let segments = vec![RomSegment::from_vec(0xFFFF_FFFF, vec![1, 2])];
    assert_eq!(flatten(&segments), Err(Error::InvalidElf));
}

#[test]
fn segment_constructors() {
    let data = vec![5u8; 300];
    let code = CodeSegment::from_slice(0x2300_0100, &data);
    assert_eq!((code.addr, code.size, code.data.len()), (0x2300_0100, 300, 300));
    let rom = RomSegment::from_code_segment(0x100, code);
    assert_eq!((rom.addr, rom.size()), (0x100, 300));
    assert_eq!(rom.data, data);
    let rom = RomSegment::from_vec(7, vec![1, 2]);
    assert_eq!((rom.addr, rom.size(), rom.data.clone()), (7, 2, vec![1, 2]));
    let rom = RomSegment::from_slice(8, &data[..3]);
    assert_eq!((rom.addr, rom.size()), (8, 3));
    assert_eq!(RomSegment::from_vec(0, vec![]).size(), 0);
}

#[test]
fn code_segments_are_ordered_by_address() {
    let a = [1u8];
    let b = [2u8, 3];
    let low = CodeSegment::from_slice(0x100, &a);
    let high = CodeSegment::from_slice(0x200, &b);
    let same = CodeSegment::from_slice(0x100, &b);
    assert!(low < high);
    assert!(high > low);
    assert!(low == same);
    assert!(low != high);
    assert_eq!(low.partial_cmp(&high), Some(Ordering::Less));
    assert_eq!(high.partial_cmp(&low), Some(Ordering::Greater));
    assert_eq!(low.partial_cmp(&same), Some(Ordering::Equal));
}
