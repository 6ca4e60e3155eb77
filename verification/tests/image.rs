use blflash::chip::{Bl602, Chip};
use blflash::image::bootheader::place_image;
use blflash::image::{BootCfg, BootHeaderCfg, ClkCfg, Entry, FlashCfg, PartitionCfg, Table};
use blflash::{Boot2Opt, Error};
use crc::crc32::checksum_ieee;
use sha2::{Digest, Sha256};

fn le(bytes: &[u8], at: usize) -> u32 {
    u32::from_le_bytes([bytes[at], bytes[at + 1], bytes[at + 2], bytes[at + 3]])
}

fn header() -> BootHeaderCfg {
    let mut cfg = BootHeaderCfg::default();
    cfg.magic_code = 0x504e4642;
    cfg.revision = 1;
    cfg.flash_cfg.flashcfg_magic_code = 0x47464346;
    cfg.flash_cfg.io_mode = 4;
    cfg.flash_cfg.cont_read_support = 1;
    cfg.flash_cfg.sector_size = 4;
    cfg.flash_cfg.mfg_id = 0xef;
    cfg.flash_cfg.page_size = 256;
    cfg.flash_cfg.sector_erase_time = 300;
    cfg.flash_cfg.chip_erase_time = 33000;
    cfg.flash_cfg.qe_data = 0x11;
    cfg.clk_cfg.clkcfg_magic_code = 0x47464350;
    cfg.clk_cfg.xtal_type = 4;
    cfg.clk_cfg.pll_clk = 4;
    cfg.clk_cfg.bclk_div = 1;
    cfg.clk_cfg.flash_clk_type = 1;
    cfg.clk_cfg.flash_clk_div = 1;
    cfg.boot_cfg.cache_enable = 1;
    cfg.boot_cfg.cache_way_disable = 3;
    cfg.boot_cfg.img_start = 0x2000;
    cfg
}

fn check_image(cfg: &BootHeaderCfg, image: &[u8], offset: usize, payload: &[u8]) {
    let padded = (payload.len() + 15) / 16 * 16;
    assert_eq!(image.len(), offset + padded);
    assert_eq!(image[offset..offset + payload.len()], payload[..]);
    assert!(image[offset + payload.len()..].iter().all(|b| *b == 0xFF));
    assert!(image[176..offset].iter().all(|b| *b == 0xFF));
    assert_eq!(le(image, 120) as usize, padded);
    assert_eq!(image[132..164], Sha256::digest(&image[offset..])[..]);
    assert_eq!(le(image, 96), checksum_ieee(&image[12..96]));
    assert_eq!(le(image, 112), checksum_ieee(&image[104..112]));
    assert_eq!(le(image, 172), checksum_ieee(&image[0..172]));
    assert_eq!(image[..176], cfg.to_bytes()[..]);
    assert_eq!(cfg.boot_cfg.img_len as usize, padded);
}

#[test]
fn make_image_pads_hashes_and_seals() {
    let payload: Vec<u8> = (0..12345u32).map(|i| (i % 255) as u8).collect();
    let mut cfg = header();
    let image = cfg.make_image(0x1000, payload.clone()).unwrap();
    assert_eq!(image.len(), 0x1000 + 12352);
    assert_eq!(cfg.boot_cfg.img_len, 12352);
    check_image(&cfg, &image, 0x1000, &payload);
    assert_eq!(le(&image, 0), 0x504e4642);
    assert_eq!(le(&image, 4), 1);
    assert_eq!(le(&image, 8), 0x47464346);
    assert_eq!(le(&image, 100), 0x47464350);
}

#[test]
fn make_image_of_a_payload_that_needs_no_padding() {
    let payload = vec![0x42; 64];
    let mut cfg = header();
    let image = cfg.make_image(0x2000, payload.clone()).unwrap();
    assert_eq!(image.len(), 0x2000 + 64);
    check_image(&cfg, &image, 0x2000, &payload);
}

#[test]
fn make_image_of_an_empty_payload() {
    let mut cfg = header();
    let image = cfg.make_image(176, vec![]).unwrap();
    assert_eq!(image.len(), 176);
    assert_eq!(cfg.boot_cfg.img_len, 0);
    check_image(&cfg, &image, 176, &[]);
    // SHA-256 of nothing
    assert_eq!(image[132..136], [0xe3, 0xb0, 0xc4, 0x42]);
    assert_eq!(cfg.boot_cfg.hash_0, 0x42c4b0e3);
}

#[test]
fn make_image_of_one_byte() {
    let mut cfg = header();
    let image = cfg.make_image(200, vec![7]).unwrap();
    assert_eq!(image.len(), 216);
    assert_eq!(image[200], 7);
    check_image(&cfg, &image, 200, &[7]);
}

#[test]
fn make_image_cuts_the_header_at_a_short_offset() {
    let mut cfg = header();
    let image = cfg.make_image(100, vec![1; 16]).unwrap();
    assert_eq!(image.len(), 116);
    assert_eq!(image[..100], cfg.to_bytes()[..100]);
    assert_eq!(image[100..], [1; 16]);
    let image = cfg.make_image(0, vec![2; 3]).unwrap();
    assert_eq!(image.len(), 16);
    assert_eq!(image[..3], [2; 3]);
    assert!(image[3..].iter().all(|b| *b == 0xFF));
}

#[test]
fn make_image_twice_gives_the_same_image() {
    let payload = vec![0x33; 1000];
    let mut cfg = header();
    let first = cfg.make_image(0x1000, payload.clone()).unwrap();
    let second = cfg.make_image(0x1000, payload).unwrap();
    assert_eq!(first, second);
}

#[test]
fn place_image_cuts_or_pads() {
    assert_eq!(place_image(vec![1, 2, 3], 5, &[9]), vec![1, 2, 3, 0xFF, 0xFF, 9]);
    assert_eq!(place_image(vec![1, 2, 3], 2, &[9]), vec![1, 2, 9]);
    assert_eq!(place_image(vec![1, 2, 3], 3, &[]), vec![1, 2, 3]);
}

#[test]
fn update_sha256_reads_little_endian_words() {
    let mut cfg = header();
    let hash: Vec<u8> = (1..=32u8).collect();
    assert_eq!(cfg.update_sha256(&hash), Ok(()));
    assert_eq!(cfg.boot_cfg.hash_0, 0x04030201);
    assert_eq!(cfg.boot_cfg.hash_1, 0x08070605);
    assert_eq!(cfg.boot_cfg.hash_7, 0x201f1e1d);
    assert_eq!(cfg.to_bytes()[132..164], hash[..]);
    assert_eq!(cfg.update_sha256(&hash[..31]), Err(Error::IO));
    assert_eq!(cfg.boot_cfg.hash_0, 0x04030201);
}

#[test]
fn boot_flags_are_packed() {
    let mut boot = BootCfg::default();
    boot.sign = 1;
    boot.encrypt_type = 2;
    boot.key_sel = 3;
    boot.no_segment = 1;
    boot.cache_enable = 1;
    boot.notload_in_bootrom = 0;
    boot.aes_region_lock = 1;
    boot.cache_way_disable = 0xA;
    boot.hash_ignore = 1;
    boot.crc_ignore = 0;
    boot.img_len = 0x11223344;
    boot.bootentry = 0x55667788;
    boot.img_start = 0x2000;
    let bytes = boot.to_bytes();
    assert_eq!(bytes.len(), 56);
    assert_eq!(bytes[0], 0b0011_1001);
    assert_eq!(bytes[1], 0b1010_1011);
    assert_eq!(bytes[2], 0);
    assert_eq!(bytes[3], 0b0000_0010);
    assert_eq!(bytes[4..8], [0x44, 0x33, 0x22, 0x11]);
    assert_eq!(bytes[8..12], [0x88, 0x77, 0x66, 0x55]);
    assert_eq!(bytes[12..16], [0x00, 0x20, 0, 0]);
    assert_eq!(bytes[48..], [0; 8]);
    // only the low bits of a flag are written
    boot.sign = 0xFD;
    boot.crc_ignore = 3;
    boot.hash_ignore = 2;
    let bytes = boot.to_bytes();
    assert_eq!(bytes[0], 0b0011_1001);
    assert_eq!(bytes[3], 0b0000_0001);
}

#[test]
fn flash_cfg_layout() {
    let mut flash = FlashCfg::default();
    flash.flashcfg_magic_code = 0x47464346;
    flash.io_mode = 0x11;
    flash.page_size = 0x0102;
    flash.reg_read_cmd1 = 0x35;
    flash.reg_write_cmd0 = 0x01;
    flash.sector_erase_time = 0x0304;
    flash.chip_erase_time = 0x0506;
    flash.power_down_delay = 0x77;
    flash.qe_data = 0x88;
    flash.flashcfg_crc32 = 0xAABBCCDD;
    let bytes = flash.to_bytes();
    assert_eq!(bytes.len(), 92);
    assert_eq!(bytes[..4], [0x46, 0x43, 0x46, 0x47]);
    assert_eq!(bytes[4], 0x11);
    assert_eq!(bytes[18..20], [0x02, 0x01]);
    assert_eq!(bytes[57], 0x35);
    assert_eq!(bytes[58..60], [0, 0]);
    assert_eq!(bytes[60], 0x01);
    assert_eq!(bytes[62..64], [0, 0]);
    assert_eq!(bytes[76..78], [0x04, 0x03]);
    assert_eq!(bytes[84..88], [0x06, 0x05, 0x77, 0x88]);
    assert_eq!(bytes[88..], [0xDD, 0xCC, 0xBB, 0xAA]);
    assert_eq!(flash.checksum(), checksum_ieee(&bytes[4..88]));
    flash.update();
    assert_eq!(flash.flashcfg_crc32, checksum_ieee(&bytes[4..88]));
    assert_eq!(flash.to_bytes()[..88], bytes[..88]);
}

#[test]
fn clk_cfg_layout() {
    let mut clk = ClkCfg {
        clkcfg_magic_code: 0x47464350,
        xtal_type: 1,
        pll_clk: 2,
        hclk_div: 3,
        bclk_div: 4,
        flash_clk_type: 5,
        flash_clk_div: 6,
        clkcfg_crc32: 0,
    };
    clk.update();
    let bytes = clk.to_bytes();
    assert_eq!(bytes[..12], [0x50, 0x43, 0x46, 0x47, 1, 2, 3, 4, 5, 6, 0, 0]);
    assert_eq!(le(&bytes, 12), checksum_ieee(&[1, 2, 3, 4, 5, 6, 0, 0]));
    assert_eq!(clk.checksum(), clk.clkcfg_crc32);
}

#[test]
fn header_update_leaves_the_inner_checksums() {
    let mut cfg = header();
    cfg.flash_cfg.flashcfg_crc32 = 5;
    cfg.update();
    assert_eq!(cfg.flash_cfg.flashcfg_crc32, 5);
    let bytes = cfg.to_bytes();
    assert_eq!(bytes.len(), 176);
    assert_eq!(cfg.crc32, checksum_ieee(&bytes[..172]));
    assert_eq!(cfg.checksum(), cfg.crc32);
}

fn entry(type_: u32, name: &str, address0: u32, size0: u32) -> Entry {
    Entry { type_, name: name.to_string(), address0, address1: 0, size0, size1: 0, len: 0 }
}

fn table() -> PartitionCfg {
    PartitionCfg {
        entry_len: 0,
        checksum: 0,
        pt_table: Table { address0: 0xE000, address1: 0xF000 },
        pt_entry: vec![
            Entry {
                type_: 0,
                name: "FW".to_string(),
                address0: 0x10000,
                address1: 0xD8000,
                size0: 0xC8000,
                size1: 0x88000,
                len: 0,
            },
            entry(2, "mfg", 0x160000, 0x32000),
            entry(3, "media", 0x192000, 0x57000),
            entry(4, "PSM", 0x1E9000, 0x8000),
            entry(5, "KEY", 0x1F1000, 0x2000),
            entry(6, "DATA", 0x1F3000, 0x5000),
            entry(7, "factory", 0x1F8000, 0x7000),
        ],
        file_checksum: 0,
    }
}

#[test]
fn partition_table_is_sealed() {
    let mut cfg = table();
    assert_eq!(cfg.update(), Ok(()));
    assert_eq!(cfg.entry_len, 7);
    let bytes = cfg.to_bytes().unwrap();
    assert_eq!(bytes.len(), 16 + 36 * 7 + 4);
    assert_eq!(bytes[..6], *b"BFPT\x00\x00");
    assert_eq!(le(&bytes, 6), 7);
    assert_eq!(bytes[10..12], [0, 0]);
    assert_eq!(le(&bytes, 12), checksum_ieee(&bytes[..12]));
    assert_eq!(le(&bytes, 16 + 36 * 7), checksum_ieee(&bytes[16..16 + 36 * 7]));
    assert_eq!(cfg.header_checksum(), cfg.checksum);
    assert_eq!(cfg.checksum(), Ok(cfg.file_checksum));
    for (i, e) in cfg.pt_entry.iter().enumerate() {
        let field = &bytes[16 + 36 * i + 3..16 + 36 * i + 12];
        assert_eq!(field[..e.name.len()], *e.name.as_bytes());
        assert!(field[e.name.len()..].iter().all(|b| *b == 0));
        assert_eq!(field[8], 0);
    }
}

#[test]
fn entry_layout() {
    let e = Entry {
        type_: 0x0403_0201,
        name: "factory".to_string(),
        address0: 0x11111111,
        address1: 0x22222222,
        size0: 0x33333333,
        size1: 0x44444444,
        len: 0x55555555,
    };
    let bytes = e.to_bytes().unwrap();
    assert_eq!(bytes.len(), 36);
    assert_eq!(bytes[..3], [1, 2, 3]);
    assert_eq!(bytes[3..12], *b"factory\x00\x00");
    assert_eq!(bytes[12..16], [0x11; 4]);
    assert_eq!(bytes[16..20], [0x22; 4]);
    assert_eq!(bytes[20..24], [0x33; 4]);
    assert_eq!(bytes[24..28], [0x44; 4]);
    assert_eq!(bytes[28..32], [0x55; 4]);
    assert_eq!(bytes[32..], [0; 4]);
}

#[test]
fn names_of_eight_bytes_fit_and_of_nine_do_not() {
    let mut out = vec![0xEE];
    assert_eq!(Entry::write_name("12345678", &mut out), Ok(()));
    assert_eq!(out, b"\xEE12345678\x00");
    assert_eq!(Entry::write_name("123456789", &mut out), Err(Error::ParseError));
    assert_eq!(out.len(), 10);
    let mut out = Vec::new();
    assert_eq!(Entry::write_name("", &mut out), Ok(()));
    assert_eq!(out, [0; 9]);
    // four characters of three bytes each
    let mut out = Vec::new();
    assert_eq!(Entry::write_name("\u{20ac}\u{20ac}\u{20ac}", &mut out), Err(Error::ParseError));
    assert_eq!(Entry::write_name("\u{20ac}\u{20ac}ab", &mut out), Ok(()));
    assert_eq!(out, "\u{20ac}\u{20ac}ab\x00".as_bytes());
}

#[test]
fn table_with_a_long_name_is_refused_unchanged() {
    let mut cfg = table();
    cfg.pt_entry[3].name = "much too long".to_string();
    cfg.entry_len = 99;
    assert_eq!(cfg.update(), Err(Error::ParseError));
    assert_eq!(cfg.entry_len, 99);
    assert_eq!(cfg.to_bytes(), Err(Error::ParseError));
    assert_eq!(cfg.checksum(), Err(Error::ParseError));
    assert_eq!(cfg.entries_to_bytes(), Err(Error::ParseError));
    assert_eq!(cfg.pt_entry[3].to_bytes(), Err(Error::ParseError));
}

#[test]
fn empty_table() {
    let mut cfg = table();
    cfg.pt_entry.clear();
    assert_eq!(cfg.update(), Ok(()));
    let bytes = cfg.to_bytes().unwrap();
    assert_eq!(bytes.len(), 20);
    assert_eq!(le(&bytes, 6), 0);
    assert_eq!(le(&bytes, 12), checksum_ieee(&bytes[..12]));
    assert_eq!(le(&bytes, 16), checksum_ieee(&[]));
    assert_eq!(le(&bytes, 16), 0);
}

#[test]
fn boot2_build() {
    let boot2: Vec<u8> = (0..5000u32).map(|i| (i % 199) as u8).collect();
    let chip = Bl602::new(vec![0; 200], boot2.clone());
    let firmware: Vec<u8> = (0..12345u32).map(|i| (i % 211) as u8).collect();
    let ro_params = vec![0xD0, 0x0D, 0xFE, 0xED, 1, 2, 3];
    let segments = chip.with_boot2(table(), header(), ro_params.clone(), &firmware).unwrap();
    let offsets: Vec<u32> = segments.iter().map(|s| s.addr).collect();
    assert_eq!(offsets, vec![0x0, 0xE000, 0xF000, 0x10000, 0x1F8000]);
    // the bootloader image
    let mut cfg = header();
    let boot2image = cfg.make_image(0x2000, boot2.clone()).unwrap();
    assert_eq!(segments[0].data, boot2image);
    assert_eq!(segments[0].data.len(), 0x2000 + 5008);
    check_image(&cfg, &segments[0].data, 0x2000, &boot2);
    // the partition table, twice
    let mut sealed = table();
    sealed.update().unwrap();
    assert_eq!(segments[1].data, sealed.to_bytes().unwrap());
    assert_eq!(segments[2].data, segments[1].data);
    // the firmware image
    let fw = &segments[3].data;
    assert_eq!(le(fw, 120), 12352);
    assert_eq!(fw.len(), 0x1000 + 12352);
    let fw_image = cfg.make_image(0x1000, firmware.clone()).unwrap();
    assert_eq!(*fw, fw_image);
    check_image(&cfg, fw, 0x1000, &firmware);
    // the device tree
    assert_eq!(segments[4].data, ro_params);
    assert_eq!(segments[4].size(), 7);
}

#[test]
fn boot2_build_with_a_long_name_is_refused() {
    let chip = Bl602::new(vec![], vec![1, 2, 3]);
    let mut cfg = table();
    cfg.pt_entry[0].name = "firmware!".to_string();
    assert!(matches!(chip.with_boot2(cfg, header(), vec![], &[1]), Err(Error::ParseError)));
}

#[test]
fn segments_with_and_without_boot2() {
    let chip = Bl602::new(vec![], vec![9; 20]);
    let image = vec![0x61; 33];
    let without = Boot2Opt { without_boot2: true, ..Boot2Opt::default() };
    let segments = without
        .get_segments(&chip, table(), header(), vec![1], image.clone())
        .unwrap();
    assert_eq!(segments.len(), 1);
    assert_eq!(segments[0].addr, 0);
    let mut cfg = header();
    assert_eq!(segments[0].data, cfg.make_image(0x2000, image.clone()).unwrap());
    let one = without.make_segment(header(), image.clone()).unwrap();
    assert_eq!(one.data, segments[0].data);
    let with = Boot2Opt::default();
    assert!(!with.without_boot2 && with.dtb.is_none() && with.partition_cfg.is_none());
    let segments = with.get_segments(&chip, table(), header(), vec![1], image.clone()).unwrap();
    assert_eq!(segments.len(), 5);
    let same = with.with_boot2(&chip, table(), header(), vec![1], &image).unwrap();
    assert_eq!(same[3].data, segments[3].data);
    assert_eq!(chip.target(), "riscv32imac-unknown-none-elf");
}
