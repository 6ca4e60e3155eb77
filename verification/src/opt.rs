//! What the user chose for the layout of the flash.

use std::path::PathBuf;
use vstd::prelude::*;
use crate::chip::{Chip, BOOT2_ADDR, BOOT2_OFFSET};
use crate::elf::{rom_views, RomSegment, RomSegmentView};
use crate::error::Error;
use crate::image::bootheader::BootHeaderCfg;
use crate::image::partition::PartitionCfg;

verus! {

/// `std::path::PathBuf`, of which this crate looks at nothing.
#[verifier::external_type_specification]
#[verifier::external_body]
pub struct ExPathBuf(PathBuf);

/// Where the parts of a complete flash image come from, and whether one is
/// wanted at all. A path that is not given stands for the part that comes
/// with the chip.
pub struct Boot2Opt {
    /// Path to the partition table as TOML.
    pub partition_cfg: Option<PathBuf>,
    /// Path to the boot header configuration.
    pub boot_header_cfg: Option<PathBuf>,
    /// Path to the device tree.
    pub dtb: Option<PathBuf>,
    /// Whether the image is written as it is, behind a boot header, with
    /// neither bootloader nor partition table.
    pub without_boot2: bool,
}

impl Default for Boot2Opt {
    fn default() -> (r: Boot2Opt)
        ensures
            r.partition_cfg is None,
            r.boot_header_cfg is None,
            r.dtb is None,
            !r.without_boot2,
    {
        Boot2Opt { partition_cfg: None, boot_header_cfg: None, dtb: None, without_boot2: false }
    }
}

impl Boot2Opt {
    /// The one segment of a flash without bootloader: the image of `image`
    /// behind its boot header, with the payload at `0x2000`, at flash
    /// offset 0.
    pub open spec fn spec_make_segment(boot_header_cfg: BootHeaderCfg, image: Seq<u8>) -> Result<
        RomSegmentView,
        Error,
    > {
        if BootHeaderCfg::image_fits(BOOT2_OFFSET as int, image.len() as int) {
            Ok(
                RomSegmentView {
                    addr: BOOT2_ADDR,
                    data: boot_header_cfg.prepared(image).spec_image(BOOT2_OFFSET as int, image),
                },
            )
        } else {
            Err(Error::ParseError)
        }
    }

    /// The segments that are written for `image`: one, if no bootloader is
    /// wanted, else the complete layout of the chip.
    pub open spec fn spec_get_segments<C: Chip>(
        &self,
        chip: &C,
        partition_cfg: PartitionCfg,
        boot_header_cfg: BootHeaderCfg,
        ro_params: Seq<u8>,
        image: Seq<u8>,
    ) -> Result<Seq<RomSegmentView>, Error> {
        if self.without_boot2 {
            match Self::spec_make_segment(boot_header_cfg, image) {
                Ok(segment) => Ok(seq![segment]),
                Err(e) => Err(e),
            }
        } else {
            chip.spec_with_boot2(partition_cfg, boot_header_cfg, ro_params, image)
        }
    }

    /// The segments of a complete flash image of `chip`, from the
    /// configurations and the device tree that the options name.
    pub fn with_boot2<C: Chip>(
        &self,
        chip: &C,
        partition_cfg: PartitionCfg,
        boot_header_cfg: BootHeaderCfg,
        ro_params: Vec<u8>,
        image: &[u8],
    ) -> (r: Result<Vec<RomSegment>, Error>)
        ensures
            match chip.spec_with_boot2(partition_cfg, boot_header_cfg, ro_params@, image@) {
                Ok(segments) => r is Ok && rom_views(r->Ok_0@) == segments,
                Err(e) => r is Err && r->Err_0 == e,
            },
    {
        chip.with_boot2(partition_cfg, boot_header_cfg, ro_params, image)
    }

    /// The one segment of a flash without bootloader. Fails with
    /// `Error::ParseError` exactly when the image is too long.
    pub fn make_segment(&self, boot_header_cfg: BootHeaderCfg, image: Vec<u8>) -> (r: Result<
        RomSegment,
        Error,
    >)
        ensures
            match Self::spec_make_segment(boot_header_cfg, image@) {
                Ok(segment) => r is Ok && r->Ok_0@ == segment,
                Err(e) => r is Err && r->Err_0 == e,
            },
    {
        let mut boot_header_cfg = boot_header_cfg;
        match boot_header_cfg.make_image(BOOT2_OFFSET, image) {
            Ok(img) => Ok(RomSegment::from_vec(BOOT2_ADDR, img)),
            Err(e) => Err(Error::ParseError),
        }
    }

    /// The segments that are written for `image`.
    pub fn get_segments<C: Chip>(
        &self,
        chip: &C,
        partition_cfg: PartitionCfg,
        boot_header_cfg: BootHeaderCfg,
        ro_params: Vec<u8>,
        image: Vec<u8>,
    ) -> (r: Result<Vec<RomSegment>, Error>)
        ensures
            match self.spec_get_segments(
                chip,
                partition_cfg,
                boot_header_cfg,
                ro_params@,
                image@,
            ) {
                Ok(segments) => r is Ok && rom_views(r->Ok_0@) == segments,
                Err(e) => r is Err && r->Err_0 == e,
            },
    {
        if self.without_boot2 {
            match self.make_segment(boot_header_cfg, image) {
                Ok(segment) => {
                    let mut segments: Vec<RomSegment> = Vec::new();
                    segments.push(segment);
                    assert(rom_views(segments@) =~= seq![segment@]);
                    Ok(segments)
                },
                Err(e) => Err(e),
            }
        } else {
            self.with_boot2(chip, partition_cfg, boot_header_cfg, ro_params, image.as_slice())
        }
    }
}

} // verus!
