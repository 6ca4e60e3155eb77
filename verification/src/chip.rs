//! What differs from chip to chip: the stub that is uploaded to program the
//! flash, the addresses that are mapped to flash, and the layout of a
//! complete flash image.

use vstd::prelude::*;
use crate::bytes::copy_range;
use crate::elf::{flash_segments, rom_views, CodeSegmentView, RomSegmentView};
use crate::error::Error;

pub use crate::elf::{CodeSegment, FirmwareImage, RomSegment};
use crate::image::bootheader::BootHeaderCfg;
use crate::image::partition::PartitionCfg;

verus! {

/// First address that the BL602 maps to flash.
pub const ROM_START: u32 = 0x2300_0000;

/// End of the 16 MiB that the BL602 maps to flash.
pub const ROM_END: u32 = 0x2400_0000;

/// Offset of the bootloader's payload within its image.
pub const BOOT2_OFFSET: usize = 0x2000;

/// Offset of the firmware's payload within its image.
pub const FIRMWARE_OFFSET: usize = 0x1000;

/// Flash offset of the bootloader image.
pub const BOOT2_ADDR: u32 = 0x0;

/// Flash offset of the first copy of the partition table.
pub const PARTITION_ADDR0: u32 = 0xe000;

/// Flash offset of the second copy of the partition table.
pub const PARTITION_ADDR1: u32 = 0xf000;

/// Flash offset of the firmware image.
pub const FIRMWARE_ADDR: u32 = 0x10000;

/// Flash offset of the device tree.
pub const RO_PARAMS_ADDR: u32 = 0x1f8000;

/// A chip that this crate can flash.
pub trait Chip {
    /// The flash offset that a load address is mapped to, if any.
    spec fn flash_offset(&self, addr: u32) -> Option<u32>;

    /// The stub that programs the flash.
    spec fn eflash_loader(&self) -> Seq<u8>;

    /// The target triple of firmware for this chip.
    fn target(&self) -> &'static str;

    /// The stub that programs the flash.
    fn get_eflash_loader(&self) -> (loader: &[u8])
        ensures
            loader@ == self.eflash_loader(),
    ;

    /// The segment as it is written to flash, if its load address is mapped
    /// to flash.
    fn get_flash_segment<'a>(&self, code_segment: CodeSegment<'a>) -> (r: Option<RomSegment>)
        ensures
            match self.flash_offset(code_segment.addr) {
                Some(offset) => r is Some && r->Some_0@ == (RomSegmentView {
                    addr: offset,
                    data: code_segment.data@,
                }),
                None => r is None,
            },
    ;

    /// The segments of a complete flash image, or the error that building
    /// them ends with.
    spec fn spec_with_boot2(
        &self,
        partition_cfg: PartitionCfg,
        bootheader_cfg: BootHeaderCfg,
        ro_params: Seq<u8>,
        bin: Seq<u8>,
    ) -> Result<Seq<RomSegmentView>, Error>;

    /// The segments of a complete flash image: bootloader, partition table,
    /// firmware `bin` and device tree.
    fn with_boot2(
        &self,
        partition_cfg: PartitionCfg,
        bootheader_cfg: BootHeaderCfg,
        ro_params: Vec<u8>,
        bin: &[u8],
    ) -> (r: Result<Vec<RomSegment>, Error>)
        ensures
            match self.spec_with_boot2(partition_cfg, bootheader_cfg, ro_params@, bin@) {
                Ok(segments) => r is Ok && rom_views(r->Ok_0@) == segments,
                Err(e) => r is Err && r->Err_0 == e,
            },
    ;
}

/// The BL602, with the stub and the second-stage bootloader that it is
/// flashed with.
pub struct Bl602 {
    eflash_loader: Vec<u8>,
    boot2: Vec<u8>,
}

impl Bl602 {
    /// A BL602 that is programmed through `eflash_loader` and boots through
    /// `boot2`.
    pub fn new(eflash_loader: Vec<u8>, boot2: Vec<u8>) -> (chip: Bl602)
        ensures
            chip.eflash_loader() == eflash_loader@,
            chip.boot2() == boot2@,
    {
        Bl602 { eflash_loader, boot2 }
    }

    /// The second-stage bootloader.
    pub closed spec fn boot2(&self) -> Seq<u8> {
        self.boot2@
    }

    /// Whether `addr` lies in the 16 MiB that are mapped to flash.
    pub open spec fn spec_addr_is_flash(addr: u32) -> bool {
        ROM_START <= addr < ROM_END
    }

    /// Whether `addr` lies in the 16 MiB that are mapped to flash.
    pub fn addr_is_flash(&self, addr: u32) -> (mapped: bool)
        ensures
            mapped == Self::spec_addr_is_flash(addr),
    {
        addr >= ROM_START && addr < ROM_END
    }

    /// Whether the images of a complete flash layout can be built.
    pub open spec fn layout_fits(&self, partition_cfg: PartitionCfg, bin: Seq<u8>) -> bool {
        &&& partition_cfg.serialisable()
        &&& BootHeaderCfg::image_fits(BOOT2_OFFSET as int, self.boot2().len() as int)
        &&& BootHeaderCfg::image_fits(FIRMWARE_OFFSET as int, bin.len() as int)
    }

    /// The five segments of a complete flash layout: the bootloader image
    /// at `0x0`, the updated partition table at `0xE000` and again at
    /// `0xF000`, the firmware image at `0x10000`, and the device tree at
    /// `0x1F8000`. The header of the firmware image is the one that the
    /// bootloader image left.
    pub open spec fn layout(
        &self,
        partition_cfg: PartitionCfg,
        bootheader_cfg: BootHeaderCfg,
        ro_params: Seq<u8>,
        bin: Seq<u8>,
    ) -> Seq<RomSegmentView> {
        let table = partition_cfg.sealed().spec_bytes();
        let boot_header = bootheader_cfg.prepared(self.boot2());
        let firmware_header = boot_header.prepared(bin);
        seq![
            RomSegmentView {
                addr: BOOT2_ADDR,
                data: boot_header.spec_image(BOOT2_OFFSET as int, self.boot2()),
            },
            RomSegmentView { addr: PARTITION_ADDR0, data: table },
            RomSegmentView { addr: PARTITION_ADDR1, data: table },
            RomSegmentView {
                addr: FIRMWARE_ADDR,
                data: firmware_header.spec_image(FIRMWARE_OFFSET as int, bin),
            },
            RomSegmentView { addr: RO_PARAMS_ADDR, data: ro_params },
        ]
    }
}

impl Bl602 {
    /// The five parts of a complete flash layout, each at its fixed offset;
    /// the partition table twice.
    pub fn place(boot2image: Vec<u8>, table: Vec<u8>, fw_image: Vec<u8>, ro_params: Vec<u8>) -> (r:
        Vec<RomSegment>)
        ensures
            rom_views(r@) == seq![
                RomSegmentView { addr: BOOT2_ADDR, data: boot2image@ },
                RomSegmentView { addr: PARTITION_ADDR0, data: table@ },
                RomSegmentView { addr: PARTITION_ADDR1, data: table@ },
                RomSegmentView { addr: FIRMWARE_ADDR, data: fw_image@ },
                RomSegmentView { addr: RO_PARAMS_ADDR, data: ro_params@ },
            ],
    {
        let table_copy = copy_range(table.as_slice(), 0, table.len());
        assert(table_copy@ =~= table@);
        let mut segments: Vec<RomSegment> = Vec::new();
        segments.push(RomSegment::from_vec(BOOT2_ADDR, boot2image));
        segments.push(RomSegment::from_vec(PARTITION_ADDR0, table_copy));
        segments.push(RomSegment::from_vec(PARTITION_ADDR1, table));
        segments.push(RomSegment::from_vec(FIRMWARE_ADDR, fw_image));
        segments.push(RomSegment::from_vec(RO_PARAMS_ADDR, ro_params));
        assert(rom_views(segments@) =~= seq![
            RomSegmentView { addr: BOOT2_ADDR, data: boot2image@ },
            RomSegmentView { addr: PARTITION_ADDR0, data: table@ },
            RomSegmentView { addr: PARTITION_ADDR1, data: table@ },
            RomSegmentView { addr: FIRMWARE_ADDR, data: fw_image@ },
            RomSegmentView { addr: RO_PARAMS_ADDR, data: ro_params@ },
        ]);
        segments
    }
}

impl Chip for Bl602 {
    open spec fn flash_offset(&self, addr: u32) -> Option<u32> {
        if ROM_START <= addr < ROM_END {
            Some((addr - ROM_START) as u32)
        } else {
            None
        }
    }

    closed spec fn eflash_loader(&self) -> Seq<u8> {
        self.eflash_loader@
    }

    /// The layout of the BL602; `Error::ParseError` exactly when a
    /// partition name is longer than eight bytes, the table has more
    /// entries than 32 bits count, or the bootloader or the firmware is too
    /// long for its image.
    open spec fn spec_with_boot2(
        &self,
        partition_cfg: PartitionCfg,
        bootheader_cfg: BootHeaderCfg,
        ro_params: Seq<u8>,
        bin: Seq<u8>,
    ) -> Result<Seq<RomSegmentView>, Error> {
        if self.layout_fits(partition_cfg, bin) {
            Ok(self.layout(partition_cfg, bootheader_cfg, ro_params, bin))
        } else {
            Err(Error::ParseError)
        }
    }

    fn target(&self) -> (triple: &'static str)
        ensures
            triple@ == "riscv32imac-unknown-none-elf"@,
    {
        "riscv32imac-unknown-none-elf"
    }

    fn get_eflash_loader(&self) -> (loader: &[u8]) {
        self.eflash_loader.as_slice()
    }

    /// Keeps a segment exactly when its load address lies in
    /// `[0x2300_0000, 0x2400_0000)`; its flash offset is then below 16 MiB.
    fn get_flash_segment<'a>(&self, code_segment: CodeSegment<'a>) -> (r: Option<RomSegment>)
        ensures
            r is Some <==> ROM_START <= code_segment.addr < ROM_END,
            r is Some ==> r->Some_0.addr == code_segment.addr - ROM_START && r->Some_0.addr
                < 0x0100_0000,
    {
        if self.addr_is_flash(code_segment.addr) {
            Some(RomSegment::from_code_segment(code_segment.addr - ROM_START, code_segment))
        } else {
            None
        }
    }

    fn with_boot2(
        &self,
        partition_cfg: PartitionCfg,
        bootheader_cfg: BootHeaderCfg,
        ro_params: Vec<u8>,
        bin: &[u8],
    ) -> (r: Result<Vec<RomSegment>, Error>) {
        let ghost table_cfg = partition_cfg;
        let mut partition_cfg = partition_cfg;
        let mut bootheader_cfg = bootheader_cfg;
        proof {
            if table_cfg.serialisable() {
                table_cfg.lemma_sealed(0);
            }
        }
        match partition_cfg.update() {
            Ok(()) => {},
            Err(e) => {
                return Err(Error::ParseError);
            },
        }
        let table = match partition_cfg.to_bytes() {
            Ok(bytes) => bytes,
            Err(e) => {
                return Err(Error::ParseError);
            },
        };
        let boot2 = copy_range(self.boot2.as_slice(), 0, self.boot2.len());
        assert(boot2@ =~= self.boot2@);
        let boot2image = match bootheader_cfg.make_image(BOOT2_OFFSET, boot2) {
            Ok(image) => image,
            Err(e) => {
                return Err(Error::ParseError);
            },
        };
        let firmware = copy_range(bin, 0, bin.len());
        assert(firmware@ =~= bin@);
        let fw_image = match bootheader_cfg.make_image(FIRMWARE_OFFSET, firmware) {
            Ok(image) => image,
            Err(e) => {
                return Err(Error::ParseError);
            },
        };
        Ok(Bl602::place(boot2image, table, fw_image, ro_params))
    }
}

/// Whether a segment ends within the addresses that the BL602 maps to
/// flash.
pub open spec fn ends_in_window(segment: CodeSegmentView) -> bool {
    segment.addr + segment.data.len() <= ROM_END
}

/// Every segment that the BL602 keeps in flash begins below 16 MiB, and
/// comes from a segment that is loaded 0x2300_0000 above it. If every
/// segment of the firmware ends within the addresses mapped to flash, every
/// segment kept ends within 16 MiB too.
pub proof fn lemma_flash_window(chip: &Bl602, segments: Seq<CodeSegmentView>, i: int)
    requires
        0 <= i < flash_segments(chip, segments).len(),
    ensures
        flash_segments(chip, segments)[i].addr < 0x0100_0000,
        exists|j: int|
            0 <= j < segments.len() && #[trigger] segments[j].addr == flash_segments(
                chip,
                segments,
            )[i].addr + ROM_START && segments[j].data == flash_segments(chip, segments)[i].data,
        (forall|j: int| 0 <= j < segments.len() ==> ends_in_window(#[trigger] segments[j]))
            ==> flash_segments(chip, segments)[i].addr + flash_segments(
            chip,
            segments,
        )[i].data.len() <= 0x0100_0000,
    decreases segments.len(),
{
    let head = segments.drop_last();
    let kept = flash_segments(chip, head);
    if i < kept.len() {
        lemma_flash_window(chip, head, i);
        let j = choose|j: int|
            0 <= j < head.len() && #[trigger] head[j].addr == kept[i].addr + ROM_START
                && head[j].data == kept[i].data;
        assert(segments[j] == head[j]);
        assert forall|j: int| 0 <= j < head.len() implies head[j] == segments[j] by {}
    } else {
        let last = segments.len() - 1;
        assert(segments[last].addr == flash_segments(chip, segments)[i].addr + ROM_START);
    }
}

} // verus!
