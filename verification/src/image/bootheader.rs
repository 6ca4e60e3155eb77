//! The 176-byte boot header that precedes every image the boot ROM runs.
//!
//! Layout, all integers little-endian: magic and revision (bytes 0..8), the
//! flash configuration (8..100), the clock configuration (100..116), the
//! boot configuration (116..172) and a CRC-32 of bytes 0..172 (172..176).

use vstd::prelude::*;
use vstd::slice::slice_subrange;
use crate::bytes::{
    fill, le32, le32_at, lemma_le_read_write, lemma_le_write_read, push_all, push_fill, push_quad,
    push_u32_le, quad,
};
use crate::digest::{checksum_ieee, crc32_ieee, sha256, sha256_digest};
use crate::endian::read_u32_le;
use crate::error::Error;

verus! {

/// Length of a serialised boot header.
pub const BOOT_HEADER_LEN: usize = 176;

/// Length of a serialised flash configuration.
pub const FLASH_CFG_LEN: usize = 92;

/// Length of a serialised clock configuration.
pub const CLK_CFG_LEN: usize = 16;

/// Length of a serialised boot configuration.
pub const BOOT_CFG_LEN: usize = 56;

/// SPI flash timing and command parameters.
#[derive(Clone, Copy, Debug, Default)]
pub struct FlashCfg {
    pub flashcfg_magic_code: u32,
    // 12
    pub io_mode: u8,
    pub cont_read_support: u8,
    pub sfctrl_clk_delay: u8,
    pub sfctrl_clk_invert: u8,
    // 16
    pub reset_en_cmd: u8,
    pub reset_cmd: u8,
    pub exit_contread_cmd: u8,
    pub exit_contread_cmd_size: u8,
    // 20
    pub jedecid_cmd: u8,
    pub jedecid_cmd_dmy_clk: u8,
    pub qpi_jedecid_cmd: u8,
    pub qpi_jedecid_dmy_clk: u8,
    // 24
    pub sector_size: u8,
    pub mfg_id: u8,
    pub page_size: u16,
    // 28
    pub chip_erase_cmd: u8,
    pub sector_erase_cmd: u8,
    pub blk32k_erase_cmd: u8,
    pub blk64k_erase_cmd: u8,
    // 32
    pub write_enable_cmd: u8,
    pub page_prog_cmd: u8,
    pub qpage_prog_cmd: u8,
    pub qual_page_prog_addr_mode: u8,
    // 36
    pub fast_read_cmd: u8,
    pub fast_read_dmy_clk: u8,
    pub qpi_fast_read_cmd: u8,
    pub qpi_fast_read_dmy_clk: u8,
    // 40
    pub fast_read_do_cmd: u8,
    pub fast_read_do_dmy_clk: u8,
    pub fast_read_dio_cmd: u8,
    pub fast_read_dio_dmy_clk: u8,
    // 44
    pub fast_read_qo_cmd: u8,
    pub fast_read_qo_dmy_clk: u8,
    pub fast_read_qio_cmd: u8,
    pub fast_read_qio_dmy_clk: u8,
    // 48
    pub qpi_fast_read_qio_cmd: u8,
    pub qpi_fast_read_qio_dmy_clk: u8,
    pub qpi_page_prog_cmd: u8,
    pub write_vreg_enable_cmd: u8,
    // 52
    pub wel_reg_index: u8,
    pub qe_reg_index: u8,
    pub busy_reg_index: u8,
    pub wel_bit_pos: u8,
    // 56
    pub qe_bit_pos: u8,
    pub busy_bit_pos: u8,
    pub wel_reg_write_len: u8,
    pub wel_reg_read_len: u8,
    // 60
    pub qe_reg_write_len: u8,
    pub qe_reg_read_len: u8,
    pub release_power_down: u8,
    pub busy_reg_read_len: u8,
    // 64
    pub reg_read_cmd0: u8,
    pub reg_read_cmd1: u8,
    // 68
    pub reg_write_cmd0: u8,
    pub reg_write_cmd1: u8,
    // 72
    pub enter_qpi_cmd: u8,
    pub exit_qpi_cmd: u8,
    pub cont_read_code: u8,
    pub cont_read_exit_code: u8,
    // 76
    pub burst_wrap_cmd: u8,
    pub burst_wrap_dmy_clk: u8,
    pub burst_wrap_data_mode: u8,
    pub burst_wrap_code: u8,
    // 80
    pub de_burst_wrap_cmd: u8,
    pub de_burst_wrap_cmd_dmy_clk: u8,
    pub de_burst_wrap_code_mode: u8,
    pub de_burst_wrap_code: u8,
    // 84
    pub sector_erase_time: u16,
    pub blk32k_erase_time: u16,
    // 88
    pub blk64k_erase_time: u16,
    pub page_prog_time: u16,
    // 92
    pub chip_erase_time: u16,
    pub power_down_delay: u8,
    pub qe_data: u8,
    // 96
    pub flashcfg_crc32: u32,
}

/// Clock sources and dividers.
#[derive(Clone, Copy, Debug, Default)]
pub struct ClkCfg {
    // 100
    pub clkcfg_magic_code: u32,
    // 104
    pub xtal_type: u8,
    pub pll_clk: u8,
    pub hclk_div: u8,
    pub bclk_div: u8,
    // 108
    pub flash_clk_type: u8,
    pub flash_clk_div: u8,
    // 112
    pub clkcfg_crc32: u32,
}

/// Boot flags, image geometry and image hash.
///
/// Of each flag only as many low bits are written as its place in the
/// header is wide: two for `sign`, `encrypt_type` and `key_sel`, four for
/// `cache_way_disable`, one for each of the others.
#[derive(Clone, Copy, Debug, Default)]
pub struct BootCfg {
    // 116
    pub key_sel: u8,
    pub encrypt_type: u8,
    pub sign: u8,
    // 117
    pub cache_way_disable: u8,
    pub aes_region_lock: u8,
    pub notload_in_bootrom: u8,
    pub cache_enable: u8,
    pub no_segment: u8,
    // 119
    pub hash_ignore: u8,
    pub crc_ignore: u8,
    // 120
    pub img_len: u32,
    // 124
    pub bootentry: u32,
    // 128
    pub img_start: u32,
    // 132
    pub hash_0: u32,
    pub hash_1: u32,
    pub hash_2: u32,
    pub hash_3: u32,
    pub hash_4: u32,
    pub hash_5: u32,
    pub hash_6: u32,
    pub hash_7: u32,
}

/// A whole boot header.
#[derive(Clone, Copy, Debug, Default)]
pub struct BootHeaderCfg {
    pub magic_code: u32,
    pub revision: u32,
    pub flash_cfg: FlashCfg,
    pub clk_cfg: ClkCfg,
    pub boot_cfg: BootCfg,
    // 172
    pub crc32: u32,
}

/// A boot header configuration as it stands in a file, under the key
/// `BOOTHEADER_CFG`.
#[derive(Clone, Copy, Debug, Default)]
pub struct BootHeaderCfgFile {
    pub boot_header_cfg: BootHeaderCfg,
}

/// The length of a payload of `n` bytes once padded to a multiple of 16.
pub open spec fn padded_len(n: int) -> int {
    (n + 15) / 16 * 16
}

/// A payload padded with `0xFF` to a multiple of 16 bytes.
pub open spec fn pad16(payload: Seq<u8>) -> Seq<u8> {
    payload + fill(0xFF, (padded_len(payload.len() as int) - payload.len()) as nat)
}

/// `s` cut or padded with `0xFF` to exactly `n` bytes.
pub open spec fn resized(s: Seq<u8>, n: int) -> Seq<u8> {
    if n <= s.len() {
        s.subrange(0, n)
    } else {
        s + fill(0xFF, (n - s.len()) as nat)
    }
}

impl FlashCfg {
    /// The 84 parameter bytes between the magic code and the checksum.
    #[verifier::opaque]
    pub open spec fn spec_params(self) -> Seq<u8> {
        Seq::<u8>::empty()
            + quad(
                self.io_mode,
                self.cont_read_support,
                self.sfctrl_clk_delay,
                self.sfctrl_clk_invert,
            )
            + quad(
                self.reset_en_cmd,
                self.reset_cmd,
                self.exit_contread_cmd,
                self.exit_contread_cmd_size,
            )
            + quad(
                self.jedecid_cmd,
                self.jedecid_cmd_dmy_clk,
                self.qpi_jedecid_cmd,
                self.qpi_jedecid_dmy_clk,
            )
            + quad(
                self.sector_size,
                self.mfg_id,
                (self.page_size % 256) as u8,
                (self.page_size / 256) as u8,
            )
            + quad(
                self.chip_erase_cmd,
                self.sector_erase_cmd,
                self.blk32k_erase_cmd,
                self.blk64k_erase_cmd,
            )
            + quad(
                self.write_enable_cmd,
                self.page_prog_cmd,
                self.qpage_prog_cmd,
                self.qual_page_prog_addr_mode,
            )
            + quad(
                self.fast_read_cmd,
                self.fast_read_dmy_clk,
                self.qpi_fast_read_cmd,
                self.qpi_fast_read_dmy_clk,
            )
            + quad(
                self.fast_read_do_cmd,
                self.fast_read_do_dmy_clk,
                self.fast_read_dio_cmd,
                self.fast_read_dio_dmy_clk,
            )
            + quad(
                self.fast_read_qo_cmd,
                self.fast_read_qo_dmy_clk,
                self.fast_read_qio_cmd,
                self.fast_read_qio_dmy_clk,
            )
            + quad(
                self.qpi_fast_read_qio_cmd,
                self.qpi_fast_read_qio_dmy_clk,
                self.qpi_page_prog_cmd,
                self.write_vreg_enable_cmd,
            )
            + quad(self.wel_reg_index, self.qe_reg_index, self.busy_reg_index, self.wel_bit_pos)
            + quad(
                self.qe_bit_pos,
                self.busy_bit_pos,
                self.wel_reg_write_len,
                self.wel_reg_read_len,
            )
            + quad(
                self.qe_reg_write_len,
                self.qe_reg_read_len,
                self.release_power_down,
                self.busy_reg_read_len,
            )
            + quad(self.reg_read_cmd0, self.reg_read_cmd1, 0, 0)
            + quad(self.reg_write_cmd0, self.reg_write_cmd1, 0, 0)
            + quad(
                self.enter_qpi_cmd,
                self.exit_qpi_cmd,
                self.cont_read_code,
                self.cont_read_exit_code,
            )
            + quad(
                self.burst_wrap_cmd,
                self.burst_wrap_dmy_clk,
                self.burst_wrap_data_mode,
                self.burst_wrap_code,
            )
            + quad(
                self.de_burst_wrap_cmd,
                self.de_burst_wrap_cmd_dmy_clk,
                self.de_burst_wrap_code_mode,
                self.de_burst_wrap_code,
            )
            + quad(
                (self.sector_erase_time % 256) as u8,
                (self.sector_erase_time / 256) as u8,
                (self.blk32k_erase_time % 256) as u8,
                (self.blk32k_erase_time / 256) as u8,
            )
            + quad(
                (self.blk64k_erase_time % 256) as u8,
                (self.blk64k_erase_time / 256) as u8,
                (self.page_prog_time % 256) as u8,
                (self.page_prog_time / 256) as u8,
            )
            + quad(
                (self.chip_erase_time % 256) as u8,
                (self.chip_erase_time / 256) as u8,
                self.power_down_delay,
                self.qe_data,
            )
    }

    /// The serialised configuration: magic code, parameters, checksum.
    pub open spec fn spec_bytes(self) -> Seq<u8> {
        le32(self.flashcfg_magic_code) + self.spec_params() + le32(self.flashcfg_crc32)
    }

    /// Whether the stored checksum is the CRC-32 of bytes 4..88 of the
    /// serialised configuration.
    pub open spec fn crc_valid(self) -> bool {
        self.flashcfg_crc32 == crc32_ieee(self.spec_bytes().subrange(4, 88))
    }

    /// This configuration with its checksum recomputed.
    pub open spec fn sealed(self) -> FlashCfg {
        FlashCfg { flashcfg_crc32: crc32_ieee(self.spec_params()), ..self }
    }

    /// The serialised configuration is 92 bytes, of which bytes 4..88 are
    /// the parameters.
    pub proof fn lemma_layout(self)
        ensures
            self.spec_params().len() == 84,
            self.spec_bytes().len() == 92,
            self.spec_bytes().subrange(0, 4) == le32(self.flashcfg_magic_code),
            self.spec_bytes().subrange(4, 88) == self.spec_params(),
            self.spec_bytes().subrange(88, 92) == le32(self.flashcfg_crc32),
            self.sealed().spec_params() == self.spec_params(),
            self.sealed().crc_valid(),
    {
        reveal(FlashCfg::spec_params);
        let b = self.spec_bytes();
        assert(b.subrange(0, 4) =~= le32(self.flashcfg_magic_code));
        assert(b.subrange(4, 88) =~= self.spec_params());
        assert(b.subrange(88, 92) =~= le32(self.flashcfg_crc32));
        let s = self.sealed();
        assert(s.spec_bytes().subrange(4, 88) =~= s.spec_params());
    }

    fn params(&self) -> (out: Vec<u8>)
        ensures
            out@ == self.spec_params(),
    {
        reveal(FlashCfg::spec_params);
        let mut out: Vec<u8> = Vec::new();
        push_quad(
            &mut out,
            self.io_mode,
            self.cont_read_support,
            self.sfctrl_clk_delay,
            self.sfctrl_clk_invert,
        );
        push_quad(
            &mut out,
            self.reset_en_cmd,
            self.reset_cmd,
            self.exit_contread_cmd,
            self.exit_contread_cmd_size,
        );
        push_quad(
            &mut out,
            self.jedecid_cmd,
            self.jedecid_cmd_dmy_clk,
            self.qpi_jedecid_cmd,
            self.qpi_jedecid_dmy_clk,
        );
        push_quad(
            &mut out,
            self.sector_size,
            self.mfg_id,
            (self.page_size % 256) as u8,
            (self.page_size / 256) as u8,
        );
        push_quad(
            &mut out,
            self.chip_erase_cmd,
            self.sector_erase_cmd,
            self.blk32k_erase_cmd,
            self.blk64k_erase_cmd,
        );
        push_quad(
            &mut out,
            self.write_enable_cmd,
            self.page_prog_cmd,
            self.qpage_prog_cmd,
            self.qual_page_prog_addr_mode,
        );
        push_quad(
            &mut out,
            self.fast_read_cmd,
            self.fast_read_dmy_clk,
            self.qpi_fast_read_cmd,
            self.qpi_fast_read_dmy_clk,
        );
        push_quad(
            &mut out,
            self.fast_read_do_cmd,
            self.fast_read_do_dmy_clk,
            self.fast_read_dio_cmd,
            self.fast_read_dio_dmy_clk,
        );
        push_quad(
            &mut out,
            self.fast_read_qo_cmd,
            self.fast_read_qo_dmy_clk,
            self.fast_read_qio_cmd,
            self.fast_read_qio_dmy_clk,
        );
        push_quad(
            &mut out,
            self.qpi_fast_read_qio_cmd,
            self.qpi_fast_read_qio_dmy_clk,
            self.qpi_page_prog_cmd,
            self.write_vreg_enable_cmd,
        );
        push_quad(
            &mut out,
            self.wel_reg_index,
            self.qe_reg_index,
            self.busy_reg_index,
            self.wel_bit_pos,
        );
        push_quad(
            &mut out,
            self.qe_bit_pos,
            self.busy_bit_pos,
            self.wel_reg_write_len,
            self.wel_reg_read_len,
        );
        push_quad(
            &mut out,
            self.qe_reg_write_len,
            self.qe_reg_read_len,
            self.release_power_down,
            self.busy_reg_read_len,
        );
        push_quad(&mut out, self.reg_read_cmd0, self.reg_read_cmd1, 0, 0);
        push_quad(&mut out, self.reg_write_cmd0, self.reg_write_cmd1, 0, 0);
        push_quad(
            &mut out,
            self.enter_qpi_cmd,
            self.exit_qpi_cmd,
            self.cont_read_code,
            self.cont_read_exit_code,
        );
        push_quad(
            &mut out,
            self.burst_wrap_cmd,
            self.burst_wrap_dmy_clk,
            self.burst_wrap_data_mode,
            self.burst_wrap_code,
        );
        push_quad(
            &mut out,
            self.de_burst_wrap_cmd,
            self.de_burst_wrap_cmd_dmy_clk,
            self.de_burst_wrap_code_mode,
            self.de_burst_wrap_code,
        );
        push_quad(
            &mut out,
            (self.sector_erase_time % 256) as u8,
            (self.sector_erase_time / 256) as u8,
            (self.blk32k_erase_time % 256) as u8,
            (self.blk32k_erase_time / 256) as u8,
        );
        push_quad(
            &mut out,
            (self.blk64k_erase_time % 256) as u8,
            (self.blk64k_erase_time / 256) as u8,
            (self.page_prog_time % 256) as u8,
            (self.page_prog_time / 256) as u8,
        );
        push_quad(
            &mut out,
            (self.chip_erase_time % 256) as u8,
            (self.chip_erase_time / 256) as u8,
            self.power_down_delay,
            self.qe_data,
        );
        out
    }

    /// Serialises the configuration with the checksum it holds.
    pub fn to_bytes(&self) -> (out: Vec<u8>)
        ensures
            out@ == self.spec_bytes(),
            out@.len() == 92,
    {
        let mut out: Vec<u8> = Vec::new();
        push_u32_le(&mut out, self.flashcfg_magic_code);
        let params = self.params();
        push_all(&mut out, params.as_slice());
        push_u32_le(&mut out, self.flashcfg_crc32);
        proof {
            self.lemma_layout();
        }
        out
    }

    /// The CRC-32 of bytes 4..88 of the serialised configuration.
    pub fn checksum(&self) -> (sum: u32)
        ensures
            sum == crc32_ieee(self.spec_bytes().subrange(4, 88)),
            sum == crc32_ieee(self.spec_params()),
    {
        let params = self.params();
        proof {
            self.lemma_layout();
        }
        checksum_ieee(params.as_slice())
    }

    /// Stores the checksum of the configuration as it stands.
    pub fn update(&mut self)
        ensures
            *final(self) == old(self).sealed(),
            final(self).crc_valid(),
    {
        let sum = self.checksum();
        self.flashcfg_crc32 = sum;
        proof {
            old(self).lemma_layout();
        }
    }
}

impl ClkCfg {
    /// The eight parameter bytes between the magic code and the checksum.
    pub open spec fn spec_params(self) -> Seq<u8> {
        Seq::<u8>::empty()
            + quad(self.xtal_type, self.pll_clk, self.hclk_div, self.bclk_div)
            + quad(self.flash_clk_type, self.flash_clk_div, 0, 0)
    }

    /// The serialised configuration: magic code, parameters, checksum.
    pub open spec fn spec_bytes(self) -> Seq<u8> {
        le32(self.clkcfg_magic_code) + self.spec_params() + le32(self.clkcfg_crc32)
    }

    /// Whether the stored checksum is the CRC-32 of bytes 4..12 of the
    /// serialised configuration.
    pub open spec fn crc_valid(self) -> bool {
        self.clkcfg_crc32 == crc32_ieee(self.spec_bytes().subrange(4, 12))
    }

    /// This configuration with its checksum recomputed.
    pub open spec fn sealed(self) -> ClkCfg {
        ClkCfg { clkcfg_crc32: crc32_ieee(self.spec_params()), ..self }
    }

    /// The serialised configuration is 16 bytes, of which bytes 4..12 are
    /// the parameters.
    pub proof fn lemma_layout(self)
        ensures
            self.spec_params().len() == 8,
            self.spec_bytes().len() == 16,
            self.spec_bytes().subrange(0, 4) == le32(self.clkcfg_magic_code),
            self.spec_bytes().subrange(4, 12) == self.spec_params(),
            self.spec_bytes().subrange(12, 16) == le32(self.clkcfg_crc32),
            self.sealed().spec_params() == self.spec_params(),
            self.sealed().crc_valid(),
    {
        let b = self.spec_bytes();
        assert(b.subrange(0, 4) =~= le32(self.clkcfg_magic_code));
        assert(b.subrange(4, 12) =~= self.spec_params());
        assert(b.subrange(12, 16) =~= le32(self.clkcfg_crc32));
        let s = self.sealed();
        assert(s.spec_bytes().subrange(4, 12) =~= s.spec_params());
    }

    fn params(&self) -> (out: Vec<u8>)
        ensures
            out@ == self.spec_params(),
    {
        let mut out: Vec<u8> = Vec::new();
        push_quad(&mut out, self.xtal_type, self.pll_clk, self.hclk_div, self.bclk_div);
        push_quad(&mut out, self.flash_clk_type, self.flash_clk_div, 0, 0);
        out
    }

    /// Serialises the configuration with the checksum it holds.
    pub fn to_bytes(&self) -> (out: Vec<u8>)
        ensures
            out@ == self.spec_bytes(),
            out@.len() == 16,
    {
        let mut out: Vec<u8> = Vec::new();
        push_u32_le(&mut out, self.clkcfg_magic_code);
        let params = self.params();
        push_all(&mut out, params.as_slice());
        push_u32_le(&mut out, self.clkcfg_crc32);
        proof {
            self.lemma_layout();
        }
        out
    }

    /// The CRC-32 of bytes 4..12 of the serialised configuration.
    pub fn checksum(&self) -> (sum: u32)
        ensures
            sum == crc32_ieee(self.spec_bytes().subrange(4, 12)),
            sum == crc32_ieee(self.spec_params()),
    {
        let params = self.params();
        proof {
            self.lemma_layout();
        }
        checksum_ieee(params.as_slice())
    }

    /// Stores the checksum of the configuration as it stands.
    pub fn update(&mut self)
        ensures
            *final(self) == old(self).sealed(),
            final(self).crc_valid(),
    {
        let sum = self.checksum();
        self.clkcfg_crc32 = sum;
        proof {
            old(self).lemma_layout();
        }
    }
}

impl BootCfg {
    /// Byte 0: `key_sel` in bits 4..6, `encrypt_type` in bits 2..4, `sign`
    /// in bits 0..2.
    pub open spec fn spec_flags0(self) -> u8 {
        ((self.key_sel % 4) * 16 + (self.encrypt_type % 4) * 4 + self.sign % 4) as u8
    }

    /// Byte 1: `cache_way_disable` in bits 4..8, then `aes_region_lock`,
    /// `notload_in_bootrom`, `cache_enable` and `no_segment` in bits 3 to 0.
    pub open spec fn spec_flags1(self) -> u8 {
        ((self.cache_way_disable % 16) * 16 + (self.aes_region_lock % 2) * 8 + (
        self.notload_in_bootrom % 2) * 4 + (self.cache_enable % 2) * 2 + self.no_segment % 2) as u8
    }

    /// Byte 3: `hash_ignore` in bit 1, `crc_ignore` in bit 0.
    pub open spec fn spec_flags3(self) -> u8 {
        ((self.hash_ignore % 2) * 2 + self.crc_ignore % 2) as u8
    }

    /// The eight hash words as 32 bytes, each word least significant byte
    /// first.
    pub open spec fn spec_hash_bytes(self) -> Seq<u8> {
        le32(self.hash_0) + le32(self.hash_1) + le32(self.hash_2) + le32(self.hash_3) + le32(
            self.hash_4,
        ) + le32(self.hash_5) + le32(self.hash_6) + le32(self.hash_7)
    }

    /// The serialised configuration, 56 bytes.
    #[verifier::opaque]
    pub open spec fn spec_bytes(self) -> Seq<u8> {
        quad(self.spec_flags0(), self.spec_flags1(), 0, self.spec_flags3()) + le32(self.img_len)
            + le32(self.bootentry) + le32(self.img_start) + self.spec_hash_bytes() + fill(0, 8)
    }

    /// This configuration with the hash words read from a digest, each from
    /// four bytes, least significant first.
    pub open spec fn with_hash(self, digest: Seq<u8>) -> BootCfg {
        BootCfg {
            hash_0: le32_at(digest, 0) as u32,
            hash_1: le32_at(digest, 4) as u32,
            hash_2: le32_at(digest, 8) as u32,
            hash_3: le32_at(digest, 12) as u32,
            hash_4: le32_at(digest, 16) as u32,
            hash_5: le32_at(digest, 20) as u32,
            hash_6: le32_at(digest, 24) as u32,
            hash_7: le32_at(digest, 28) as u32,
            ..self
        }
    }

    /// Where each field lies in the serialised configuration.
    pub proof fn lemma_layout(self)
        ensures
            self.spec_hash_bytes().len() == 32,
            self.spec_bytes().len() == 56,
            self.spec_bytes().subrange(4, 8) == le32(self.img_len),
            self.spec_bytes().subrange(8, 12) == le32(self.bootentry),
            self.spec_bytes().subrange(12, 16) == le32(self.img_start),
            self.spec_bytes().subrange(16, 48) == self.spec_hash_bytes(),
            self.spec_bytes().subrange(48, 56) == fill(0, 8),
    {
        reveal(BootCfg::spec_bytes);
        let b = self.spec_bytes();
        assert(b.subrange(4, 8) =~= le32(self.img_len));
        assert(b.subrange(8, 12) =~= le32(self.bootentry));
        assert(b.subrange(12, 16) =~= le32(self.img_start));
        assert(b.subrange(16, 48) =~= self.spec_hash_bytes());
        assert(b.subrange(48, 56) =~= fill(0, 8));
    }

    /// Serialises the configuration.
    pub fn to_bytes(&self) -> (out: Vec<u8>)
        ensures
            out@ == self.spec_bytes(),
            out@.len() == 56,
    {
        reveal(BootCfg::spec_bytes);
        let flags0: u8 = (self.key_sel % 4) * 16 + (self.encrypt_type % 4) * 4 + self.sign % 4;
        let flags1: u8 = (self.cache_way_disable % 16) * 16 + (self.aes_region_lock % 2) * 8 + (
        self.notload_in_bootrom % 2) * 4 + (self.cache_enable % 2) * 2 + self.no_segment % 2;
        let flags3: u8 = (self.hash_ignore % 2) * 2 + self.crc_ignore % 2;
        let mut out: Vec<u8> = Vec::new();
        push_quad(&mut out, flags0, flags1, 0, flags3);
        assert(out@ =~= quad(self.spec_flags0(), self.spec_flags1(), 0, self.spec_flags3()));
        push_u32_le(&mut out, self.img_len);
        push_u32_le(&mut out, self.bootentry);
        push_u32_le(&mut out, self.img_start);
        let ghost head = out@;
        let mut hash: Vec<u8> = Vec::new();
        push_u32_le(&mut hash, self.hash_0);
        push_u32_le(&mut hash, self.hash_1);
        push_u32_le(&mut hash, self.hash_2);
        push_u32_le(&mut hash, self.hash_3);
        push_u32_le(&mut hash, self.hash_4);
        push_u32_le(&mut hash, self.hash_5);
        push_u32_le(&mut hash, self.hash_6);
        push_u32_le(&mut hash, self.hash_7);
        assert(hash@ =~= self.spec_hash_bytes());
        push_all(&mut out, hash.as_slice());
        push_fill(&mut out, 0, 8);
        proof {
            self.lemma_layout();
        }
        out
    }
}

/// A serialised header cut or padded with `0xFF` to `offset` bytes, followed
/// by a copy of `payload`.
pub fn place_image(header: Vec<u8>, offset: usize, payload: &[u8]) -> (image: Vec<u8>)
    ensures
        image@ == resized(header@, offset as int) + payload@,
{
    let mut image = header;
    let len = image.len();
    if offset <= len {
        image.truncate(offset);
    } else {
        push_fill(&mut image, 0xFF, offset - len);
    }
    push_all(&mut image, payload);
    image
}

impl BootHeaderCfg {
    /// The first 172 bytes of the serialised header: everything but the
    /// trailing checksum.
    #[verifier::opaque]
    pub open spec fn spec_body(self) -> Seq<u8> {
        le32(self.magic_code) + le32(self.revision) + self.flash_cfg.spec_bytes()
            + self.clk_cfg.spec_bytes() + self.boot_cfg.spec_bytes()
    }

    /// The serialised header, 176 bytes.
    pub open spec fn spec_bytes(self) -> Seq<u8> {
        self.spec_body() + le32(self.crc32)
    }

    /// Whether the trailing checksum is the CRC-32 of bytes 0..172.
    pub open spec fn crc_valid(self) -> bool {
        self.crc32 == crc32_ieee(self.spec_bytes().subrange(0, 172))
    }

    /// Whether all three checksums of the header are valid.
    pub open spec fn all_crc_valid(self) -> bool {
        self.flash_cfg.crc_valid() && self.clk_cfg.crc_valid() && self.crc_valid()
    }

    /// This header with the hash words read from a digest.
    pub open spec fn with_hash(self, digest: Seq<u8>) -> BootHeaderCfg {
        BootHeaderCfg { boot_cfg: self.boot_cfg.with_hash(digest), ..self }
    }

    /// This header with the checksums of the flash and clock configurations
    /// recomputed first and the trailing checksum after them.
    pub open spec fn sealed(self) -> BootHeaderCfg {
        let inner = BootHeaderCfg {
            flash_cfg: self.flash_cfg.sealed(),
            clk_cfg: self.clk_cfg.sealed(),
            ..self
        };
        BootHeaderCfg { crc32: crc32_ieee(inner.spec_body()), ..inner }
    }

    /// The header as `make_image` leaves it for a payload: hash words from
    /// the digest of the padded payload, `img_len` its padded length, and
    /// all checksums recomputed.
    #[verifier::opaque]
    pub open spec fn prepared(self, payload: Seq<u8>) -> BootHeaderCfg {
        let hashed = self.with_hash(sha256_digest(pad16(payload)));
        BootHeaderCfg {
            boot_cfg: BootCfg {
                img_len: padded_len(payload.len() as int) as u32,
                ..hashed.boot_cfg
            },
            ..hashed
        }.sealed()
    }

    /// The image that `make_image` returns for a header already prepared:
    /// the header cut or padded to `offset` bytes, then the padded payload.
    pub open spec fn spec_image(self, offset: int, payload: Seq<u8>) -> Seq<u8> {
        resized(self.spec_bytes(), offset) + pad16(payload)
    }

    /// Where each part lies in the serialised header.
    pub proof fn lemma_layout(self)
        ensures
            self.spec_body().len() == 172,
            self.spec_bytes().len() == 176,
            self.spec_bytes().subrange(0, 172) == self.spec_body(),
            self.spec_bytes().subrange(0, 4) == le32(self.magic_code),
            self.spec_bytes().subrange(4, 8) == le32(self.revision),
            self.spec_bytes().subrange(8, 100) == self.flash_cfg.spec_bytes(),
            self.spec_bytes().subrange(100, 116) == self.clk_cfg.spec_bytes(),
            self.spec_bytes().subrange(116, 172) == self.boot_cfg.spec_bytes(),
            self.spec_bytes().subrange(172, 176) == le32(self.crc32),
    {
        reveal(BootHeaderCfg::spec_body);
        self.flash_cfg.lemma_layout();
        self.clk_cfg.lemma_layout();
        self.boot_cfg.lemma_layout();
        let b = self.spec_bytes();
        assert(b.subrange(0, 172) =~= self.spec_body());
        assert(b.subrange(0, 4) =~= le32(self.magic_code));
        assert(b.subrange(4, 8) =~= le32(self.revision));
        assert(b.subrange(8, 100) =~= self.flash_cfg.spec_bytes());
        assert(b.subrange(100, 116) =~= self.clk_cfg.spec_bytes());
        assert(b.subrange(116, 172) =~= self.boot_cfg.spec_bytes());
        assert(b.subrange(172, 176) =~= le32(self.crc32));
    }

    /// The first 172 bytes do not depend on the trailing checksum.
    pub proof fn lemma_body_without_crc(self, crc: u32)
        ensures
            (BootHeaderCfg { crc32: crc, ..self }).spec_body() == self.spec_body(),
    {
        reveal(BootHeaderCfg::spec_body);
    }

    /// A sealed header has three valid checksums and is otherwise unchanged.
    pub proof fn lemma_sealed(self)
        ensures
            self.sealed().all_crc_valid(),
            self.sealed().magic_code == self.magic_code,
            self.sealed().revision == self.revision,
            self.sealed().boot_cfg == self.boot_cfg,
            self.sealed().flash_cfg.spec_params() == self.flash_cfg.spec_params(),
            self.sealed().clk_cfg.spec_params() == self.clk_cfg.spec_params(),
    {
        let inner = BootHeaderCfg {
            flash_cfg: self.flash_cfg.sealed(),
            clk_cfg: self.clk_cfg.sealed(),
            ..self
        };
        let crc = crc32_ieee(inner.spec_body());
        let h = BootHeaderCfg { crc32: crc, ..inner };
        assert(h == self.sealed());
        self.flash_cfg.lemma_layout();
        self.clk_cfg.lemma_layout();
        inner.lemma_body_without_crc(crc);
        assert(h.spec_bytes().subrange(0, 172) =~= h.spec_body()) by {
            h.lemma_layout();
        }
    }

    /// Serialises the header with the checksums it holds.
    pub fn to_bytes(&self) -> (out: Vec<u8>)
        ensures
            out@ == self.spec_bytes(),
            out@.len() == 176,
    {
        let mut out = self.body();
        push_u32_le(&mut out, self.crc32);
        proof {
            self.lemma_layout();
        }
        out
    }

    fn body(&self) -> (out: Vec<u8>)
        ensures
            out@ == self.spec_body(),
            out@.len() == 172,
    {
        reveal(BootHeaderCfg::spec_body);
        let mut out: Vec<u8> = Vec::new();
        push_u32_le(&mut out, self.magic_code);
        push_u32_le(&mut out, self.revision);
        assert(out@ =~= le32(self.magic_code) + le32(self.revision));
        let flash = self.flash_cfg.to_bytes();
        push_all(&mut out, flash.as_slice());
        let clk = self.clk_cfg.to_bytes();
        push_all(&mut out, clk.as_slice());
        let boot = self.boot_cfg.to_bytes();
        push_all(&mut out, boot.as_slice());
        proof {
            self.lemma_layout();
        }
        out
    }

    /// The CRC-32 of bytes 0..172 of the serialised header.
    pub fn checksum(&self) -> (sum: u32)
        ensures
            sum == crc32_ieee(self.spec_bytes().subrange(0, 172)),
            sum == crc32_ieee(self.spec_body()),
    {
        let body = self.body();
        proof {
            self.lemma_layout();
        }
        checksum_ieee(body.as_slice())
    }

    /// Stores the trailing checksum of the header as it stands. The
    /// checksums of the flash and clock configurations are left alone.
    pub fn update(&mut self)
        ensures
            *final(self) == (BootHeaderCfg { crc32: crc32_ieee(old(self).spec_body()), ..*old(self) }),
            final(self).crc_valid(),
    {
        let sum = self.checksum();
        self.crc32 = sum;
        proof {
            old(self).lemma_body_without_crc(sum);
            assert(self.spec_bytes().subrange(0, 172) == self.spec_body()) by {
                self.lemma_layout();
            }
        }
    }

    /// Reads the eight hash words from the first 32 bytes of `hash`, each
    /// from four bytes, least significant first. Fails with `Error::IO`,
    /// leaving the header unchanged, exactly when `hash` is shorter than 32
    /// bytes.
    pub fn update_sha256(&mut self, hash: &[u8]) -> (r: Result<(), Error>)
        ensures
            hash@.len() >= 32 ==> r == Ok::<(), Error>(()) && *final(self) == old(self).with_hash(
                hash@,
            ),
            hash@.len() < 32 ==> r == Err::<(), Error>(Error::IO) && *final(self) == *old(self),
    {
        if hash.len() < 32 {
            return Err(Error::IO);
        }
        let w0 = Self::hash_word(hash, 0);
        let w1 = Self::hash_word(hash, 4);
        let w2 = Self::hash_word(hash, 8);
        let w3 = Self::hash_word(hash, 12);
        let w4 = Self::hash_word(hash, 16);
        let w5 = Self::hash_word(hash, 20);
        let w6 = Self::hash_word(hash, 24);
        let w7 = Self::hash_word(hash, 28);
        self.boot_cfg.hash_0 = w0;
        self.boot_cfg.hash_1 = w1;
        self.boot_cfg.hash_2 = w2;
        self.boot_cfg.hash_3 = w3;
        self.boot_cfg.hash_4 = w4;
        self.boot_cfg.hash_5 = w5;
        self.boot_cfg.hash_6 = w6;
        self.boot_cfg.hash_7 = w7;
        Ok(())
    }

    fn hash_word(hash: &[u8], at: usize) -> (w: u32)
        requires
            at + 4 <= hash@.len(),
        ensures
            w == le32_at(hash@, at as int),
    {
        let len = hash.len();
        let word = slice_subrange(hash, at, at + 4);
        read_u32_le(word)
    }

    /// Whether an image of a payload of `len` bytes at `offset` can be built:
    /// the padded length fits `img_len`, and the whole image fits in memory.
    pub open spec fn image_fits(offset: int, len: int) -> bool {
        padded_len(len) <= u32::MAX && offset + padded_len(len) <= usize::MAX
    }

    /// Builds the image that is written to flash for `image`: the payload is
    /// padded with `0xFF` to a multiple of 16 bytes; the header takes the
    /// SHA-256 of the padded payload as its hash words and the padded
    /// length as `img_len`; the three checksums are recomputed; the result
    /// is the serialised header, cut or padded with `0xFF` to `offset`
    /// bytes, followed by the padded payload.
    ///
    /// Fails with `Error::ParseError`, leaving the header unchanged, exactly
    /// when the padded length does not fit `img_len` or the image would not
    /// fit in memory.
    pub fn make_image(&mut self, offset: usize, image: Vec<u8>) -> (r: Result<Vec<u8>, Error>)
        ensures
            Self::image_fits(offset as int, image@.len() as int) ==> r is Ok && *final(self)
                == old(self).prepared(image@) && r->Ok_0@ == final(self).spec_image(
                offset as int,
                image@,
            ),
            !Self::image_fits(offset as int, image@.len() as int) ==> r == Err::<Vec<u8>, Error>(
                Error::ParseError,
            ) && *final(self) == *old(self),
    {
        let len = image.len();
        if len > 0xFFFF_FFF0 {
            return Err(Error::ParseError);
        }
        let binlen: usize = (len + 15) / 16 * 16;
        if offset > usize::MAX - binlen {
            return Err(Error::ParseError);
        }
        let mut image = image;
        let ghost payload = image@;
        push_fill(&mut image, 0xFF, binlen - len);
        let hash = sha256(image.as_slice());
        self.prepare(Ghost(payload), hash.as_slice(), binlen as u32);
        let header = self.to_bytes();
        Ok(place_image(header, offset, image.as_slice()))
    }

    /// Takes the hash words from `hash`, stores `img_len` and recomputes
    /// the three checksums, the trailing one last.
    fn prepare(&mut self, payload: Ghost<Seq<u8>>, hash: &[u8], img_len: u32)
        requires
            hash@ == sha256_digest(pad16(payload@)),
            hash@.len() == 32,
            img_len == padded_len(payload@.len() as int),
        ensures
            *final(self) == old(self).prepared(payload@),
    {
        reveal(BootHeaderCfg::prepared);
        let hashed = self.update_sha256(hash);
        self.boot_cfg.img_len = img_len;
        self.flash_cfg.update();
        self.clk_cfg.update();
        self.update();
    }

    /// Whatever the offset, an image is `offset` bytes of header followed by
    /// the payload and by fewer than 16 bytes of `0xFF` that bring the
    /// payload to a multiple of 16 bytes.
    pub proof fn lemma_image_payload(self, offset: int, payload: Seq<u8>)
        requires
            0 <= offset,
        ensures
            ({
                let image = self.spec_image(offset, payload);
                let padded = padded_len(payload.len() as int);
                &&& padded % 16 == 0
                &&& payload.len() <= padded < payload.len() + 16
                &&& image.len() == offset + padded
                &&& image.subrange(offset, offset + padded) == pad16(payload)
                &&& image.subrange(offset, offset + payload.len()) == payload
                &&& forall|i: int|
                    offset + payload.len() <= i < offset + padded ==> #[trigger] image[i] == 0xFF
            }),
    {
        let image = self.spec_image(offset, payload);
        let padded = padded_len(payload.len() as int);
        assert(resized(self.spec_bytes(), offset).len() == offset);
        assert(image.subrange(offset, offset + padded) =~= pad16(payload));
        assert(image.subrange(offset, offset + payload.len()) =~= payload);
    }

    /// In an image whose header is whole (`offset` at least 176) and was
    /// prepared for the payload, the header's `img_len` (bytes 120..124) is
    /// the padded length of the payload, its hash words (bytes 132..164)
    /// are the SHA-256 of the padded payload, and each of its three
    /// checksums is the CRC-32 of the range it covers: bytes 12..96 for the
    /// flash configuration (stored at 96), bytes 104..112 for the clock
    /// configuration (stored at 112), bytes 0..172 for the header (stored at
    /// 172).
    pub proof fn lemma_image_header(self, offset: int, payload: Seq<u8>)
        requires
            offset >= 176,
            padded_len(payload.len() as int) <= u32::MAX,
            sha256_digest(pad16(payload)).len() == 32,
        ensures
            ({
                let image = self.prepared(payload).spec_image(offset, payload);
                &&& self.prepared(payload).all_crc_valid()
                &&& image.subrange(0, 176) == self.prepared(payload).spec_bytes()
                &&& le32_at(image, 120) == padded_len(payload.len() as int)
                &&& image.subrange(132, 164) == sha256_digest(pad16(payload))
                &&& le32_at(image, 96) == crc32_ieee(image.subrange(12, 96))
                &&& le32_at(image, 112) == crc32_ieee(image.subrange(104, 112))
                &&& le32_at(image, 172) == crc32_ieee(image.subrange(0, 172))
            }),
    {
        let digest = sha256_digest(pad16(payload));
        let hashed = self.with_hash(digest);
        let sized = BootHeaderCfg {
            boot_cfg: BootCfg {
                img_len: padded_len(payload.len() as int) as u32,
                ..hashed.boot_cfg
            },
            ..hashed
        };
        let h = sized.sealed();
        assert(h == self.prepared(payload)) by {
            reveal(BootHeaderCfg::prepared);
        }
        sized.lemma_sealed();
        h.lemma_layout();
        h.flash_cfg.lemma_layout();
        h.clk_cfg.lemma_layout();
        h.boot_cfg.lemma_layout();
        let hb = h.spec_bytes();
        let image = h.spec_image(offset, payload);
        assert(image.subrange(0, 176) =~= hb);
        assert forall|i: int| 0 <= i < 176 implies image[i] == hb[i] by {
            assert(image.subrange(0, 176)[i] == image[i]);
        }
        // the hash words
        let words = h.boot_cfg.spec_hash_bytes();
        lemma_le_read_write(digest, 0);
        lemma_le_read_write(digest, 4);
        lemma_le_read_write(digest, 8);
        lemma_le_read_write(digest, 12);
        lemma_le_read_write(digest, 16);
        lemma_le_read_write(digest, 20);
        lemma_le_read_write(digest, 24);
        lemma_le_read_write(digest, 28);
        assert(words =~= digest);
        assert(image.subrange(132, 164) =~= hb.subrange(116, 172).subrange(16, 48));
        // the embedded integers
        lemma_le_write_read(0, h.boot_cfg.img_len);
        lemma_le_write_read(0, h.flash_cfg.flashcfg_crc32);
        lemma_le_write_read(0, h.clk_cfg.clkcfg_crc32);
        lemma_le_write_read(0, h.crc32);
        assert(hb.subrange(120, 124) =~= hb.subrange(116, 172).subrange(4, 8));
        assert(hb.subrange(96, 100) =~= hb.subrange(8, 100).subrange(88, 92));
        assert(hb.subrange(112, 116) =~= hb.subrange(100, 116).subrange(12, 16));
        assert(le32_at(image, 120) == le32_at(hb.subrange(120, 124), 0));
        assert(le32_at(image, 96) == le32_at(hb.subrange(96, 100), 0));
        assert(le32_at(image, 112) == le32_at(hb.subrange(112, 116), 0));
        assert(le32_at(image, 172) == le32_at(hb.subrange(172, 176), 0));
        // the ranges that the checksums cover
        assert(image.subrange(12, 96) =~= hb.subrange(8, 100).subrange(4, 88));
        assert(image.subrange(104, 112) =~= hb.subrange(100, 116).subrange(4, 12));
        assert(image.subrange(0, 172) =~= hb.subrange(0, 172));
    }
}

} // verus!
