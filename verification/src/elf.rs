//! Firmware as loadable segments, and segments as flash contents.

use vstd::prelude::*;
use vstd::slice::slice_subrange;
use crate::bytes::{copy_range, fill, push_fill};
use crate::chip::Chip;
use crate::error::Error;

verus! {

/// What a program header of an ELF file is for.
#[derive(Clone, Copy, Debug, PartialEq, Eq, Structural)]
pub enum HeaderKind {
    /// `PT_LOAD`: a part of the file that is loaded into memory.
    Load,
    /// Any other kind.
    Other,
}

/// The fields of an ELF program header that decide what is loaded where.
#[derive(Clone, Copy, Debug, PartialEq, Eq, Structural)]
pub struct ProgramHeader {
    pub kind: HeaderKind,
    /// Where the payload begins in the file.
    pub offset: u64,
    /// Length of the payload in the file.
    pub file_size: u64,
    /// Address that the payload is loaded at.
    pub physical_addr: u64,
}

/// A parsed firmware file: its entry point, its program headers and its
/// bytes. The payload of every header that yields a segment lies within the
/// file.
pub struct FirmwareImage {
    entry: u32,
    headers: Vec<ProgramHeader>,
    data: Vec<u8>,
}

/// A part of the firmware that is loaded at an address.
#[derive(Debug)]
pub struct CodeSegment<'a> {
    pub addr: u32,
    pub size: u32,
    pub data: &'a [u8],
}

/// What a `CodeSegment` stands for.
pub struct CodeSegmentView {
    pub addr: u32,
    pub size: u32,
    pub data: Seq<u8>,
}

/// Bytes to be written to flash at an offset from the start of flash.
#[derive(Debug)]
pub struct RomSegment {
    pub addr: u32,
    pub data: Vec<u8>,
}

/// What a `RomSegment` stands for.
pub struct RomSegmentView {
    pub addr: u32,
    pub data: Seq<u8>,
}

impl<'a> View for CodeSegment<'a> {
    type V = CodeSegmentView;

    open spec fn view(&self) -> CodeSegmentView {
        CodeSegmentView { addr: self.addr, size: self.size, data: self.data@ }
    }
}

impl View for RomSegment {
    type V = RomSegmentView;

    open spec fn view(&self) -> RomSegmentView {
        RomSegmentView { addr: self.addr, data: self.data@ }
    }
}

/// The low 32 bits of `x`.
pub open spec fn low32(x: int) -> u32 {
    (x % 0x1_0000_0000) as u32
}

/// Whether a program header yields a segment: it is a `PT_LOAD` header with
/// a payload that does not begin at the start of the file.
pub open spec fn selected(h: ProgramHeader) -> bool {
    h.file_size > 0 && h.kind == HeaderKind::Load && h.offset > 0
}

/// Whether the payload of every header that yields a segment lies within a
/// file of `len` bytes.
pub open spec fn payloads_in_file(headers: Seq<ProgramHeader>, len: int) -> bool {
    forall|i: int|
        0 <= i < headers.len() && selected(#[trigger] headers[i]) ==> headers[i].offset
            + headers[i].file_size <= len
}

/// The segment that a header yields: loaded at the low 32 bits of its
/// physical address, the low 32 bits of its file size as size, its payload
/// as data.
pub open spec fn segment_of(h: ProgramHeader, file: Seq<u8>) -> CodeSegmentView {
    CodeSegmentView {
        addr: low32(h.physical_addr as int),
        size: low32(h.file_size as int),
        data: file.subrange(h.offset as int, h.offset + h.file_size),
    }
}

/// The segments of a file, in the order of its program headers.
pub open spec fn spec_segments(headers: Seq<ProgramHeader>, file: Seq<u8>) -> Seq<CodeSegmentView>
    decreases headers.len(),
{
    if headers.len() == 0 {
        Seq::empty()
    } else if selected(headers.last()) {
        spec_segments(headers.drop_last(), file).push(segment_of(headers.last(), file))
    } else {
        spec_segments(headers.drop_last(), file)
    }
}

/// The segments that a chip keeps in flash, each at its flash offset, in
/// the order given.
pub open spec fn flash_segments<C: Chip>(chip: &C, segments: Seq<CodeSegmentView>) -> Seq<
    RomSegmentView,
>
    decreases segments.len(),
{
    if segments.len() == 0 {
        Seq::empty()
    } else {
        let rest = flash_segments(chip, segments.drop_last());
        match chip.flash_offset(segments.last().addr) {
            Some(offset) => rest.push(RomSegmentView { addr: offset, data: segments.last().data }),
            None => rest,
        }
    }
}

/// The least length that holds every segment at its offset; 0 for none.
pub open spec fn flash_end(segments: Seq<RomSegmentView>) -> int
    decreases segments.len(),
{
    if segments.len() == 0 {
        0
    } else {
        let rest = flash_end(segments.drop_last());
        let end = segments.last().addr + segments.last().data.len();
        if end > rest {
            end
        } else {
            rest
        }
    }
}

/// `base` with `data` written over it from position `at`.
pub open spec fn overlay(base: Seq<u8>, at: int, data: Seq<u8>) -> Seq<u8> {
    Seq::new(
        base.len(),
        |p: int|
            if at <= p < at + data.len() {
                data[p - at]
            } else {
                base[p]
            },
    )
}

/// `size` bytes of `0xFF` with each segment written at its offset, in the
/// order given, so that a later segment covers an earlier one.
pub open spec fn render(segments: Seq<RomSegmentView>, size: nat) -> Seq<u8>
    decreases segments.len(),
{
    if segments.len() == 0 {
        fill(0xFF, size)
    } else {
        overlay(
            render(segments.drop_last(), size),
            segments.last().addr as int,
            segments.last().data,
        )
    }
}

/// The flat image of the segments: as long as the furthest segment reaches,
/// `0xFF` where no segment lies.
pub open spec fn flash_image(segments: Seq<RomSegmentView>) -> Seq<u8> {
    render(segments, flash_end(segments) as nat)
}

/// What the segments stand for, one by one.
pub open spec fn code_views(segments: Seq<CodeSegment>) -> Seq<CodeSegmentView> {
    segments.map_values(|s: CodeSegment| s@)
}

/// What the segments stand for, one by one.
pub open spec fn rom_views(segments: Seq<RomSegment>) -> Seq<RomSegmentView> {
    segments.map_values(|s: RomSegment| s@)
}

/// No segment reaches beyond `flash_end`.
pub proof fn lemma_flash_end(segments: Seq<RomSegmentView>, k: int)
    requires
        0 <= k < segments.len(),
    ensures
        0 <= segments[k].addr + segments[k].data.len() <= flash_end(segments),
    decreases segments.len(),
{
    if k < segments.len() - 1 {
        lemma_flash_end(segments.drop_last(), k);
    }
}

impl<'a> CodeSegment<'a> {
    /// A segment of `data` loaded at `addr`; its size is the low 32 bits of
    /// the length of `data`.
    pub fn from_slice(addr: u32, data: &'a [u8]) -> (segment: CodeSegment<'a>)
        ensures
            segment@ == (CodeSegmentView { addr, size: low32(data@.len() as int), data: data@ }),
    {
        let size = (data.len() as u64 % 0x1_0000_0000) as u32;
        CodeSegment { addr, size, data }
    }
}

impl RomSegment {
    /// The low 32 bits of the number of bytes in the segment.
    pub open spec fn spec_size(&self) -> u32 {
        low32(self.data@.len() as int)
    }

    /// The low 32 bits of the number of bytes in the segment.
    pub fn size(&self) -> (size: u32)
        ensures
            size == self.spec_size(),
    {
        (self.data.len() as u64 % 0x1_0000_0000) as u32
    }

    /// A segment that owns `data`, to be written at `addr`.
    pub fn from_vec(addr: u32, data: Vec<u8>) -> (segment: RomSegment)
        ensures
            segment@ == (RomSegmentView { addr, data: data@ }),
    {
        RomSegment { addr, data }
    }

    /// A segment that holds a copy of `data`, to be written at `addr`.
    pub fn from_slice(addr: u32, data: &[u8]) -> (segment: RomSegment)
        ensures
            segment@ == (RomSegmentView { addr, data: data@ }),
    {
        assert(data@.subrange(0, data@.len() as int) =~= data@);
        RomSegment { addr, data: copy_range(data, 0, data.len()) }
    }

    /// A segment that holds the data of `code_segment`, to be written at
    /// `addr`.
    pub fn from_code_segment(addr: u32, code_segment: CodeSegment<'_>) -> (segment: RomSegment)
        ensures
            segment@ == (RomSegmentView { addr, data: code_segment@.data }),
    {
        assert(code_segment.data@.subrange(0, code_segment.data@.len() as int)
            =~= code_segment.data@);
        RomSegment { addr, data: copy_range(code_segment.data, 0, code_segment.data.len()) }
    }
}

/// Whether `image` begins with the four bytes `7F 45 4C 46` of an ELF file.
pub open spec fn spec_is_elf(image: Seq<u8>) -> bool {
    image.len() >= 4 && image[0] == 0x7f && image[1] == 0x45 && image[2] == 0x4c && image[3]
        == 0x46
}

/// Whether `image` begins with the four bytes `7F 45 4C 46` of an ELF file.
pub fn is_elf(image: &[u8]) -> (elf: bool)
    ensures
        elf == spec_is_elf(image@),
{
    image.len() >= 4 && image[0] == 0x7f && image[1] == 0x45 && image[2] == 0x4c && image[3]
        == 0x46
}

impl FirmwareImage {
    #[verifier::type_invariant]
    spec fn wf(self) -> bool {
        payloads_in_file(self.headers@, self.data@.len() as int)
    }

    /// The entry point.
    pub closed spec fn spec_entry(&self) -> u32 {
        self.entry
    }

    /// The program headers.
    pub closed spec fn spec_headers(&self) -> Seq<ProgramHeader> {
        self.headers@
    }

    /// The bytes of the file.
    pub closed spec fn spec_data(&self) -> Seq<u8> {
        self.data@
    }

    /// The firmware of a parsed ELF file: its entry point, of which the low
    /// 32 bits are kept, its program headers in order, and the bytes of the
    /// file. Fails with `Error::InvalidElf` exactly when the payload of a
    /// header that yields a segment does not lie within the file.
    pub fn from_elf(entry: u64, headers: Vec<ProgramHeader>, data: Vec<u8>) -> (r: Result<
        FirmwareImage,
        Error,
    >)
        ensures
            payloads_in_file(headers@, data@.len() as int) ==> r is Ok && r->Ok_0.spec_entry()
                == low32(entry as int) && r->Ok_0.spec_headers() == headers@
                && r->Ok_0.spec_data() == data@,
            !payloads_in_file(headers@, data@.len() as int) ==> r is Err && r->Err_0
                == Error::InvalidElf,
    {
        let len = data.len() as u64;
        let mut i: usize = 0;
        while i < headers.len()
            invariant
                i <= headers.len(),
                len == data@.len(),
                payloads_in_file(headers@.subrange(0, i as int), len as int),
            decreases headers.len() - i,
        {
            let h = headers[i];
            if h.file_size > 0 && h.kind == HeaderKind::Load && h.offset > 0 {
                if h.file_size > len || h.offset > len - h.file_size {
                    assert(selected(headers@[i as int]));
                    return Err(Error::InvalidElf);
                }
            }
            assert forall|j: int|
                0 <= j < i + 1 && selected(#[trigger] headers@.subrange(0, i + 1)[j]) implies (
            headers@.subrange(0, i + 1)[j]).offset + (headers@.subrange(0, i + 1)[j]).file_size
                <= len by {
                if j < i {
                    assert(headers@.subrange(0, i as int)[j] == headers@[j]);
                }
            }
            i += 1;
        }
        assert(headers@.subrange(0, i as int) =~= headers@);
        Ok(FirmwareImage { entry: (entry % 0x1_0000_0000) as u32, headers, data })
    }

    /// The entry point.
    pub fn entry(&self) -> (entry: u32)
        ensures
            entry == self.spec_entry(),
    {
        self.entry
    }

    /// The segments of the firmware, in the order of its program headers:
    /// one for each `PT_LOAD` header with a payload that does not begin at
    /// the start of the file.
    pub fn segments(&self) -> (segments: Vec<CodeSegment<'_>>)
        ensures
            code_views(segments@) == spec_segments(self.spec_headers(), self.spec_data()),
    {
        proof {
            use_type_invariant(self);
        }
        let file = self.data.as_slice();
        let mut out: Vec<CodeSegment<'_>> = Vec::new();
        let mut i: usize = 0;
        assert(self.headers@.subrange(0, 0) =~= Seq::<ProgramHeader>::empty());
        assert(code_views(out@) =~= spec_segments(self.headers@.subrange(0, 0), self.data@));
        while i < self.headers.len()
            invariant
                i <= self.headers.len(),
                file@ == self.data@,
                payloads_in_file(self.headers@, self.data@.len() as int),
                code_views(out@) == spec_segments(self.headers@.subrange(0, i as int), self.data@),
            decreases self.headers.len() - i,
        {
            let h = self.headers[i];
            let ghost next = self.headers@.subrange(0, i + 1);
            assert(next.drop_last() =~= self.headers@.subrange(0, i as int));
            assert(next.last() == h);
            if h.file_size > 0 && h.kind == HeaderKind::Load && h.offset > 0 {
                assert(selected(self.headers@[i as int]));
                assert(h.offset + h.file_size <= file@.len());
                let len = file.len();
                let from = h.offset as usize;
                let to = (h.offset + h.file_size) as usize;
                let data = slice_subrange(file, from, to);
                let segment = CodeSegment {
                    addr: (h.physical_addr % 0x1_0000_0000) as u32,
                    size: (h.file_size % 0x1_0000_0000) as u32,
                    data,
                };
                let ghost before = out@;
                out.push(segment);
                assert(code_views(out@) =~= code_views(before).push(segment@));
            }
            i += 1;
        }
        assert(self.headers@.subrange(0, i as int) =~= self.headers@);
        out
    }

    /// The segments that `chip` keeps in flash, each at its flash offset.
    pub fn rom_segments<C: Chip>(&self, chip: &C) -> (segments: Vec<RomSegment>)
        ensures
            rom_views(segments@) == flash_segments(
                chip,
                spec_segments(self.spec_headers(), self.spec_data()),
            ),
    {
        let code = self.segments();
        let ghost all = code_views(code@);
        let mut out: Vec<RomSegment> = Vec::new();
        let mut i: usize = 0;
        assert(all.subrange(0, 0) =~= Seq::<CodeSegmentView>::empty());
        assert(rom_views(out@) =~= flash_segments(chip, all.subrange(0, 0)));
        while i < code.len()
            invariant
                i <= code.len(),
                all == code_views(code@),
                rom_views(out@) == flash_segments(chip, all.subrange(0, i as int)),
            decreases code.len() - i,
        {
            let segment = CodeSegment {
                addr: code[i].addr,
                size: code[i].size,
                data: code[i].data,
            };
            let ghost next = all.subrange(0, i + 1);
            assert(next.drop_last() =~= all.subrange(0, i as int));
            assert(next.last() == segment@);
            match chip.get_flash_segment(segment) {
                Some(rom) => {
                    let ghost before = out@;
                    out.push(rom);
                    assert(rom_views(out@) =~= rom_views(before).push(rom@));
                },
                None => {},
            }
            i += 1;
        }
        assert(all.subrange(0, i as int) =~= all);
        out
    }

    /// The firmware as one flat image of the flash of `chip`: as long as
    /// the furthest segment reaches, `0xFF` where no segment lies, each
    /// segment copied to its place in order. Fails with `Error::InvalidElf`
    /// exactly when a segment reaches beyond the 32-bit range of flash
    /// offsets.
    pub fn to_flash_bin<C: Chip>(&self, chip: &C) -> (r: Result<Vec<u8>, Error>)
        ensures
            ({
                let segments = flash_segments(
                    chip,
                    spec_segments(self.spec_headers(), self.spec_data()),
                );
                &&& flash_end(segments) <= u32::MAX ==> r is Ok && r->Ok_0@ == flash_image(segments)
                &&& flash_end(segments) > u32::MAX ==> r is Err && r->Err_0 == Error::InvalidElf
            }),
    {
        let segments = self.rom_segments(chip);
        flatten(&segments)
    }
}

/// One flat image of the segments: as long as the furthest segment
/// reaches, `0xFF` where no segment lies, each segment copied to its place
/// in order. Fails with `Error::InvalidElf` exactly when a segment reaches
/// beyond the 32-bit range of flash offsets.
pub fn flatten(segments: &Vec<RomSegment>) -> (r: Result<Vec<u8>, Error>)
    ensures
        flash_end(rom_views(segments@)) <= u32::MAX ==> r is Ok && r->Ok_0@ == flash_image(
            rom_views(segments@),
        ),
        flash_end(rom_views(segments@)) > u32::MAX ==> r is Err && r->Err_0 == Error::InvalidElf,
{
    let ghost all = rom_views(segments@);
    let mut size: u64 = 0;
    let mut i: usize = 0;
    assert(all.subrange(0, 0) =~= Seq::<RomSegmentView>::empty());
    while i < segments.len()
        invariant
            i <= segments.len(),
            all == rom_views(segments@),
            size == flash_end(all.subrange(0, i as int)),
            size <= u32::MAX,
        decreases segments.len() - i,
    {
        let ghost next = all.subrange(0, i + 1);
        assert(next.drop_last() =~= all.subrange(0, i as int));
        assert(next.last() == segments@[i as int]@);
        let len = segments[i].data.len() as u64;
        let addr = segments[i].addr as u64;
        if len > 0xFFFF_FFFF - addr {
            proof {
                lemma_flash_end(all, i as int);
            }
            return Err(Error::InvalidElf);
        }
        if addr + len > size {
            size = addr + len;
        }
        i += 1;
    }
    assert(all.subrange(0, i as int) =~= all);
    let mut bin: Vec<u8> = Vec::new();
    push_fill(&mut bin, 0xFF, size as usize);
    assert(bin@ =~= render(all.subrange(0, 0), size as nat));
    let mut k: usize = 0;
    while k < segments.len()
        invariant
            k <= segments.len(),
            all == rom_views(segments@),
            size == flash_end(all),
            size <= u32::MAX,
            bin@ == render(all.subrange(0, k as int), size as nat),
            bin@.len() == size,
        decreases segments.len() - k,
    {
        let ghost next = all.subrange(0, k + 1);
        assert(next.drop_last() =~= all.subrange(0, k as int));
        assert(next.last() == segments@[k as int]@);
        proof {
            lemma_flash_end(all, k as int);
        }
        let ghost base = bin@;
        let at = segments[k].addr as usize;
        let data = &segments[k].data;
        let mut j: usize = 0;
        assert(bin@ =~= overlay(base, at as int, data@.subrange(0, 0)));
        while j < data.len()
            invariant
                j <= data.len(),
                at + data.len() <= size,
                size <= u32::MAX,
                base.len() == size,
                bin@ == overlay(base, at as int, data@.subrange(0, j as int)),
            decreases data.len() - j,
        {
            bin.set(at + j, data[j]);
            j += 1;
            assert(bin@ =~= overlay(base, at as int, data@.subrange(0, j as int)));
        }
        assert(data@.subrange(0, j as int) =~= data@);
        k += 1;
    }
    assert(all.subrange(0, k as int) =~= all);
    Ok(bin)
}

} // verus!
