//! Commands and responses of the boot ROM and of the flash loader stub.
//!
//! A command travels as a frame: its identifier, a checksum byte that is
//! zero for every command, the length of its body as two bytes, least
//! significant first, and the body. A response that carries a payload
//! travels as the length of the payload, two bytes, and the payload.

use vstd::prelude::*;
use crate::bytes::{
    copy_range, le16, le16_at, le32, le32_at, lemma_le_write_read, push_all, push_u32_le,
};
use crate::endian::{read_u16_le, read_u32_le, u16_le_bytes};
use crate::error::Error;

verus! {

/// Length of the boot header that `LoadBootHeader` carries.
pub const LOAD_BOOT_HEADER_LEN: usize = 176;

/// Length of the segment header that `LoadSegmentHeaderReq` carries.
pub const LOAD_SEGMENT_HEADER_LEN: usize = 16;

/// Most bytes of data that one `LoadSegmentData` or `FlashProgram` carries.
pub const CHUNK_LEN: usize = 4000;

/// Longest body that a frame can declare.
pub const MAX_BODY_LEN: usize = 0xFFFF;

/// A command: what is sent, and how its body is written and read.
pub trait Command: View + Sized {
    /// What the device answers with.
    type Response: Response;

    /// The identifier of the command.
    spec fn spec_id() -> u8;

    /// The body that stands for a command.
    spec fn spec_body(c: Self::V) -> Seq<u8>;

    /// The command that a body stands for, if any.
    spec fn spec_parse(body: Seq<u8>) -> Option<Self::V>;

    /// Parsing the body of a command gives the command.
    proof fn lemma_round_trip(c: Self::V)
        ensures
            Self::spec_parse(Self::spec_body(c)) == Some(c),
    ;

    /// The identifier of the command.
    fn cmd_id() -> (id: u8)
        ensures
            id == Self::spec_id(),
    ;

    /// The checksum byte of the frame: zero for every command.
    fn checksum(&self) -> (sum: u8)
        ensures
            sum == 0,
    ;

    /// The body of the command.
    fn to_bytes(&self) -> (body: Vec<u8>)
        ensures
            body@ == Self::spec_body(self@),
    ;

    /// The command that a body stands for, if any.
    fn from_body(body: &[u8]) -> (c: Option<Self>)
        ensures
            match Self::spec_parse(body@) {
                Some(v) => c is Some && c->Some_0@ == v,
                None => c is None,
            },
    ;
}

/// A response: how it is read from the length and payload that the device
/// sent.
pub trait Response: View + Sized {
    /// Whether the device sends a length and a payload after `"OK"`.
    spec fn has_payload() -> bool;

    /// The response that the two length bytes and the payload stand for, if
    /// any.
    spec fn spec_parse(input: Seq<u8>) -> Option<Self::V>;

    /// The response that the two length bytes and the payload stand for.
    /// Fails with `Error::ParseError` exactly when they stand for none.
    fn from_payload(input: &[u8]) -> (r: Result<Self, Error>)
        ensures
            match Self::spec_parse(input@) {
                Some(v) => r is Ok && r->Ok_0@ == v,
                None => r is Err && r->Err_0 == Error::ParseError,
            },
    ;

    /// The response itself where the device sends nothing after `"OK"`.
    fn no_response_payload() -> (r: Option<Self>)
        ensures
            r is Some <==> !Self::has_payload(),
    ;
}

/// The response to a command that is answered by `"OK"` alone.
#[derive(Clone, Copy, Debug, PartialEq, Eq, Structural)]
pub struct NoResponsePayload {}

impl View for NoResponsePayload {
    type V = NoResponsePayload;

    open spec fn view(&self) -> NoResponsePayload {
        *self
    }
}

impl Response for NoResponsePayload {
    open spec fn has_payload() -> bool {
        false
    }

    open spec fn spec_parse(input: Seq<u8>) -> Option<NoResponsePayload> {
        Some(NoResponsePayload {  })
    }

    fn from_payload(input: &[u8]) -> (r: Result<NoResponsePayload, Error>) {
        Ok(NoResponsePayload {  })
    }

    fn no_response_payload() -> (r: Option<NoResponsePayload>) {
        Some(NoResponsePayload {  })
    }
}

/// A frame: identifier, checksum byte, length of the body, body.
pub open spec fn spec_frame_with(id: u8, sum: u8, body: Seq<u8>) -> Seq<u8> {
    seq![id, sum] + le16(body.len() as u16) + body
}

/// The frame of a command: identifier, zero checksum, length of the body,
/// body.
pub open spec fn spec_frame(id: u8, body: Seq<u8>) -> Seq<u8> {
    spec_frame_with(id, 0, body)
}

/// The identifier and the body of a frame: of at least four bytes, with a
/// zero checksum, that declares the length of what follows its header.
pub open spec fn spec_unframe(frame: Seq<u8>) -> Option<(u8, Seq<u8>)> {
    if frame.len() >= 4 && frame[1] == 0 && le16_at(frame, 2) == frame.len() - 4 {
        Some((frame[0], frame.subrange(4, frame.len() as int)))
    } else {
        None
    }
}

/// The frame with the given identifier, checksum byte and body. Fails with
/// `Error::OverSizedPacket` exactly when the body is longer than 65535
/// bytes.
pub fn frame(id: u8, sum: u8, body: &[u8]) -> (r: Result<Vec<u8>, Error>)
    ensures
        body@.len() <= MAX_BODY_LEN ==> r is Ok && r->Ok_0@ == spec_frame_with(id, sum, body@),
        body@.len() > MAX_BODY_LEN ==> r is Err && r->Err_0 == Error::OverSizedPacket,
{
    if body.len() > MAX_BODY_LEN {
        return Err(Error::OverSizedPacket);
    }
    let len = u16_le_bytes(body.len() as u16);
    let mut out: Vec<u8> = Vec::new();
    out.push(id);
    out.push(sum);
    push_all(&mut out, len.as_slice());
    push_all(&mut out, body);
    assert(out@ =~= spec_frame_with(id, sum, body@));
    Ok(out)
}

/// The identifier and the body of a frame, if it is one.
pub fn unframe(frame: &[u8]) -> (r: Option<(u8, Vec<u8>)>)
    ensures
        match spec_unframe(frame@) {
            Some((id, body)) => r is Some && r->Some_0.0 == id && r->Some_0.1@ == body,
            None => r is None,
        },
{
    if frame.len() < 4 || frame[1] != 0 {
        return None;
    }
    let declared = read_u16_le(vstd::slice::slice_subrange(frame, 2, 4));
    if declared as usize != frame.len() - 4 {
        return None;
    }
    Some((frame[0], copy_range(frame, 4, frame.len())))
}

/// The frame of a command. Fails with `Error::OverSizedPacket` exactly when
/// the body of the command is longer than 65535 bytes.
pub fn to_cmd<C: Command>(command: &C) -> (r: Result<Vec<u8>, Error>)
    ensures
        C::spec_body(command@).len() <= MAX_BODY_LEN ==> r is Ok && r->Ok_0@ == spec_frame(
            C::spec_id(),
            C::spec_body(command@),
        ),
        C::spec_body(command@).len() > MAX_BODY_LEN ==> r is Err && r->Err_0
            == Error::OverSizedPacket,
{
    let body = command.to_bytes();
    frame(C::cmd_id(), command.checksum(), body.as_slice())
}

/// The command that a frame stands for: its identifier is that of the
/// command, and its body parses.
pub open spec fn spec_decode<C: Command>(frame: Seq<u8>) -> Option<C::V> {
    match spec_unframe(frame) {
        Some((id, body)) => if id == C::spec_id() {
            C::spec_parse(body)
        } else {
            None
        },
        None => None,
    }
}

/// The command that a frame stands for, if any.
pub fn from_cmd<C: Command>(frame: &[u8]) -> (r: Option<C>)
    ensures
        match spec_decode::<C>(frame@) {
            Some(v) => r is Some && r->Some_0@ == v,
            None => r is None,
        },
{
    match unframe(frame) {
        Some((id, body)) => {
            if id == C::cmd_id() {
                C::from_body(body.as_slice())
            } else {
                None
            }
        },
        None => None,
    }
}

/// A frame begins with the identifier, a zero byte and the length of the
/// body, least significant byte first, and unframes to its identifier and
/// body.
pub proof fn lemma_frame_round_trip(id: u8, body: Seq<u8>)
    requires
        body.len() <= MAX_BODY_LEN,
    ensures
        spec_frame(id, body).len() == 4 + body.len(),
        spec_frame(id, body)[0] == id,
        spec_frame(id, body)[1] == 0,
        spec_frame(id, body)[2] == body.len() % 256,
        spec_frame(id, body)[3] == body.len() / 256,
        spec_frame(id, body).subrange(4, 4 + body.len() as int) == body,
        spec_unframe(spec_frame(id, body)) == Some((id, body)),
{
    let f = spec_frame(id, body);
    lemma_le_write_read(body.len() as u16, 0);
    assert(f.subrange(4, 4 + body.len() as int) =~= body);
    assert(le16_at(f, 2) == le16_at(le16(body.len() as u16), 0));
}

/// Decoding the frame of a command whose body a frame can carry gives the
/// command; the frame begins with the identifier of the command, a zero
/// byte and the length of the body, least significant byte first.
pub proof fn lemma_command_round_trip<C: Command>(c: C::V)
    requires
        C::spec_body(c).len() <= MAX_BODY_LEN,
    ensures
        spec_decode::<C>(spec_frame(C::spec_id(), C::spec_body(c))) == Some(c),
        ({
            let body = C::spec_body(c);
            let f = spec_frame(C::spec_id(), body);
            &&& f.len() == 4 + body.len()
            &&& f[0] == C::spec_id()
            &&& f[1] == 0
            &&& f[2] == body.len() % 256
            &&& f[3] == body.len() / 256
            &&& f.subrange(4, 4 + body.len() as int) == body
        }),
{
    lemma_frame_round_trip(C::spec_id(), C::spec_body(c));
    C::lemma_round_trip(c);
}

/// The number that the four bytes from `at` stand for, least significant
/// byte first.
pub fn read_u32_at(buf: &[u8], at: usize) -> (x: u32)
    requires
        at + 4 <= buf@.len(),
    ensures
        x == le32_at(buf@, at as int),
{
    let len = buf.len();
    read_u32_le(vstd::slice::slice_subrange(buf, at, at + 4))
}

/// A declared length and the payload of that length.
pub struct PayloadView {
    pub len: u16,
    pub data: Seq<u8>,
}

/// The declared length and the payload that follow `"OK"`: two bytes of
/// length, then at least as many bytes as they declare, of which that many
/// are the payload.
pub open spec fn spec_parse_payload(input: Seq<u8>) -> Option<PayloadView> {
    if input.len() >= 2 && input.len() >= 2 + le16_at(input, 0) {
        Some(
            PayloadView {
                len: le16_at(input, 0) as u16,
                data: input.subrange(2, 2 + le16_at(input, 0)),
            },
        )
    } else {
        None
    }
}

/// The declared length and the payload that follow `"OK"`, if `input` holds
/// as many bytes as it declares.
pub fn parse_payload(input: &[u8]) -> (r: Option<(u16, Vec<u8>)>)
    ensures
        match spec_parse_payload(input@) {
            Some(v) => r is Some && r->Some_0.0 == v.len && r->Some_0.1@ == v.data,
            None => r is None,
        },
{
    if input.len() < 2 {
        return None;
    }
    let len = read_u16_le(vstd::slice::slice_subrange(input, 0, 2));
    if input.len() - 2 < len as usize {
        return None;
    }
    Some((len, copy_range(input, 2, 2 + len as usize)))
}

/// Asks the boot ROM to check the image it was sent.
#[derive(Clone, Copy, Debug, Default, PartialEq, Eq, Structural)]
pub struct CheckImage {}

impl View for CheckImage {
    type V = CheckImage;

    open spec fn view(&self) -> CheckImage {
        *self
    }
}

impl Command for CheckImage {
    type Response = NoResponsePayload;

    open spec fn spec_id() -> u8 {
        0x19
    }

    open spec fn spec_body(c: CheckImage) -> Seq<u8> {
        Seq::empty()
    }

    open spec fn spec_parse(body: Seq<u8>) -> Option<CheckImage> {
        if body.len() == 0 {
            Some(CheckImage {  })
        } else {
            None
        }
    }

    proof fn lemma_round_trip(c: CheckImage) {
    }

    fn cmd_id() -> (id: u8) {
        0x19
    }

    fn checksum(&self) -> (sum: u8) {
        0
    }

    fn to_bytes(&self) -> (body: Vec<u8>) {
        Vec::new()
    }

    fn from_body(body: &[u8]) -> (c: Option<CheckImage>) {
        if body.len() == 0 {
            Some(CheckImage {  })
        } else {
            None
        }
    }
}

/// Asks the boot ROM to run the image it was sent.
#[derive(Clone, Copy, Debug, Default, PartialEq, Eq, Structural)]
pub struct RunImage {}

impl View for RunImage {
    type V = RunImage;

    open spec fn view(&self) -> RunImage {
        *self
    }
}

impl Command for RunImage {
    type Response = NoResponsePayload;

    open spec fn spec_id() -> u8 {
        0x1a
    }

    open spec fn spec_body(c: RunImage) -> Seq<u8> {
        Seq::empty()
    }

    open spec fn spec_parse(body: Seq<u8>) -> Option<RunImage> {
        if body.len() == 0 {
            Some(RunImage {  })
        } else {
            None
        }
    }

    proof fn lemma_round_trip(c: RunImage) {
    }

    fn cmd_id() -> (id: u8) {
        0x1a
    }

    fn checksum(&self) -> (sum: u8) {
        0
    }

    fn to_bytes(&self) -> (body: Vec<u8>) {
        Vec::new()
    }

    fn from_body(body: &[u8]) -> (c: Option<RunImage>) {
        if body.len() == 0 {
            Some(RunImage {  })
        } else {
            None
        }
    }
}

/// Asks the boot ROM for its version and the one-time-programmable data.
#[derive(Clone, Copy, Debug, Default, PartialEq, Eq, Structural)]
pub struct BootInfoReq {}

impl View for BootInfoReq {
    type V = BootInfoReq;

    open spec fn view(&self) -> BootInfoReq {
        *self
    }
}

impl Command for BootInfoReq {
    type Response = BootInfo;

    open spec fn spec_id() -> u8 {
        0x10
    }

    open spec fn spec_body(c: BootInfoReq) -> Seq<u8> {
        Seq::empty()
    }

    open spec fn spec_parse(body: Seq<u8>) -> Option<BootInfoReq> {
        if body.len() == 0 {
            Some(BootInfoReq {  })
        } else {
            None
        }
    }

    proof fn lemma_round_trip(c: BootInfoReq) {
    }

    fn cmd_id() -> (id: u8) {
        0x10
    }

    fn checksum(&self) -> (sum: u8) {
        0
    }

    fn to_bytes(&self) -> (body: Vec<u8>) {
        Vec::new()
    }

    fn from_body(body: &[u8]) -> (c: Option<BootInfoReq>) {
        if body.len() == 0 {
            Some(BootInfoReq {  })
        } else {
            None
        }
    }
}

/// What the boot ROM says of itself.
#[derive(Clone, Copy, Debug)]
pub struct BootInfo {
    /// Length of the payload, as the device declared it.
    pub len: u16,
    pub bootrom_version: u32,
    pub otp_info: [u8; 16],
}

/// What a `BootInfo` stands for.
pub struct BootInfoView {
    pub len: u16,
    pub bootrom_version: u32,
    pub otp_info: Seq<u8>,
}

impl View for BootInfo {
    type V = BootInfoView;

    open spec fn view(&self) -> BootInfoView {
        BootInfoView {
            len: self.len,
            bootrom_version: self.bootrom_version,
            otp_info: self.otp_info@,
        }
    }
}

impl Default for BootInfo {
    fn default() -> (r: BootInfo)
        ensures
            r.len == 0,
            r.bootrom_version == 0,
            forall|i: int| 0 <= i < 16 ==> r.otp_info@[i] == 0,
    {
        BootInfo { len: 0, bootrom_version: 0, otp_info: [0u8;16] }
    }
}

impl Response for BootInfo {
    open spec fn has_payload() -> bool {
        true
    }

    /// Two bytes of length, four of version and sixteen of data; what
    /// follows them is ignored.
    open spec fn spec_parse(input: Seq<u8>) -> Option<BootInfoView> {
        if input.len() >= 22 {
            Some(
                BootInfoView {
                    len: le16_at(input, 0) as u16,
                    bootrom_version: le32_at(input, 2) as u32,
                    otp_info: input.subrange(6, 22),
                },
            )
        } else {
            None
        }
    }

    fn from_payload(input: &[u8]) -> (r: Result<BootInfo, Error>) {
        if input.len() < 22 {
            return Err(Error::ParseError);
        }
        let len = read_u16_le(vstd::slice::slice_subrange(input, 0, 2));
        let bootrom_version = read_u32_at(input, 2);
        let mut otp_info = [0u8;16];
        let mut i: usize = 0;
        while i < 16
            invariant
                i <= 16,
                input@.len() >= 22,
                forall|j: int| 0 <= j < i ==> otp_info@[j] == input@[6 + j],
            decreases 16 - i,
        {
            otp_info[i] = input[6 + i];
            i += 1;
        }
        assert(otp_info@ =~= input@.subrange(6, 22));
        Ok(BootInfo { len, bootrom_version, otp_info })
    }

    fn no_response_payload() -> (r: Option<BootInfo>) {
        None
    }
}

/// Sends the boot header of the image.
#[derive(Clone, Debug, Default)]
pub struct LoadBootHeader {
    /// The boot header; the boot ROM expects 176 bytes.
    pub boot_header: Vec<u8>,
}

impl View for LoadBootHeader {
    type V = Seq<u8>;

    open spec fn view(&self) -> Seq<u8> {
        self.boot_header@
    }
}

impl Command for LoadBootHeader {
    type Response = NoResponsePayload;

    open spec fn spec_id() -> u8 {
        0x11
    }

    open spec fn spec_body(c: Seq<u8>) -> Seq<u8> {
        c
    }

    open spec fn spec_parse(body: Seq<u8>) -> Option<Seq<u8>> {
        Some(body)
    }

    proof fn lemma_round_trip(c: Seq<u8>) {
    }

    fn cmd_id() -> (id: u8) {
        0x11
    }

    fn checksum(&self) -> (sum: u8) {
        0
    }

    fn to_bytes(&self) -> (body: Vec<u8>) {
        let body = copy_range(self.boot_header.as_slice(), 0, self.boot_header.len());
        assert(body@ =~= self.boot_header@);
        body
    }

    fn from_body(body: &[u8]) -> (c: Option<LoadBootHeader>) {
        let boot_header = copy_range(body, 0, body.len());
        assert(boot_header@ =~= body@);
        Some(LoadBootHeader { boot_header })
    }
}

/// Sends the header of the segment that follows.
#[derive(Clone, Debug, Default)]
pub struct LoadSegmentHeaderReq {
    /// The segment header; the boot ROM expects 16 bytes.
    pub segment_header: Vec<u8>,
}

impl View for LoadSegmentHeaderReq {
    type V = Seq<u8>;

    open spec fn view(&self) -> Seq<u8> {
        self.segment_header@
    }
}

impl Command for LoadSegmentHeaderReq {
    type Response = LoadSegmentHeader;

    open spec fn spec_id() -> u8 {
        0x17
    }

    open spec fn spec_body(c: Seq<u8>) -> Seq<u8> {
        c
    }

    open spec fn spec_parse(body: Seq<u8>) -> Option<Seq<u8>> {
        Some(body)
    }

    proof fn lemma_round_trip(c: Seq<u8>) {
    }

    fn cmd_id() -> (id: u8) {
        0x17
    }

    fn checksum(&self) -> (sum: u8) {
        0
    }

    fn to_bytes(&self) -> (body: Vec<u8>) {
        let body = copy_range(self.segment_header.as_slice(), 0, self.segment_header.len());
        assert(body@ =~= self.segment_header@);
        body
    }

    fn from_body(body: &[u8]) -> (c: Option<LoadSegmentHeaderReq>) {
        let segment_header = copy_range(body, 0, body.len());
        assert(segment_header@ =~= body@);
        Some(LoadSegmentHeaderReq { segment_header })
    }
}

/// The segment header as the boot ROM read it.
#[derive(Clone, Debug)]
pub struct LoadSegmentHeader {
    /// Length of the payload, as the device declared it.
    pub len: u16,
    /// The payload.
    pub data: Vec<u8>,
}

impl View for LoadSegmentHeader {
    type V = PayloadView;

    open spec fn view(&self) -> PayloadView {
        PayloadView { len: self.len, data: self.data@ }
    }
}

impl Response for LoadSegmentHeader {
    open spec fn has_payload() -> bool {
        true
    }

    open spec fn spec_parse(input: Seq<u8>) -> Option<PayloadView> {
        spec_parse_payload(input)
    }

    fn from_payload(input: &[u8]) -> (r: Result<LoadSegmentHeader, Error>) {
        match parse_payload(input) {
            Some((len, data)) => Ok(LoadSegmentHeader { len, data }),
            None => Err(Error::ParseError),
        }
    }

    fn no_response_payload() -> (r: Option<LoadSegmentHeader>) {
        None
    }
}

/// Sends a part of the segment.
#[derive(Clone, Debug, Default)]
pub struct LoadSegmentData {
    /// Up to 4000 bytes of the segment.
    pub segment_data: Vec<u8>,
}

impl View for LoadSegmentData {
    type V = Seq<u8>;

    open spec fn view(&self) -> Seq<u8> {
        self.segment_data@
    }
}

impl Command for LoadSegmentData {
    type Response = NoResponsePayload;

    open spec fn spec_id() -> u8 {
        0x18
    }

    open spec fn spec_body(c: Seq<u8>) -> Seq<u8> {
        c
    }

    open spec fn spec_parse(body: Seq<u8>) -> Option<Seq<u8>> {
        Some(body)
    }

    proof fn lemma_round_trip(c: Seq<u8>) {
    }

    fn cmd_id() -> (id: u8) {
        0x18
    }

    fn checksum(&self) -> (sum: u8) {
        0
    }

    fn to_bytes(&self) -> (body: Vec<u8>) {
        let body = copy_range(self.segment_data.as_slice(), 0, self.segment_data.len());
        assert(body@ =~= self.segment_data@);
        body
    }

    fn from_body(body: &[u8]) -> (c: Option<LoadSegmentData>) {
        let segment_data = copy_range(body, 0, body.len());
        assert(segment_data@ =~= body@);
        Some(LoadSegmentData { segment_data })
    }
}

/// Asks the stub to erase a range of flash.
#[derive(Clone, Copy, Debug, Default, PartialEq, Eq, Structural)]
pub struct FlashErase {
    /// First flash offset to erase.
    pub start: u32,
    /// Flash offset at which erasing ends.
    pub end: u32,
}

impl View for FlashErase {
    type V = FlashErase;

    open spec fn view(&self) -> FlashErase {
        *self
    }
}

impl Command for FlashErase {
    type Response = NoResponsePayload;

    open spec fn spec_id() -> u8 {
        0x30
    }

    open spec fn spec_body(c: FlashErase) -> Seq<u8> {
        le32(c.start) + le32(c.end)
    }

    open spec fn spec_parse(body: Seq<u8>) -> Option<FlashErase> {
        if body.len() == 8 {
            Some(FlashErase { start: le32_at(body, 0) as u32, end: le32_at(body, 4) as u32 })
        } else {
            None
        }
    }

    proof fn lemma_round_trip(c: FlashErase) {
        lemma_le_write_read(0, c.start);
        lemma_le_write_read(0, c.end);
        let body = Self::spec_body(c);
        assert(le32_at(body, 0) == le32_at(le32(c.start), 0));
        assert(le32_at(body, 4) == le32_at(le32(c.end), 0));
    }

    fn cmd_id() -> (id: u8) {
        0x30
    }

    fn checksum(&self) -> (sum: u8) {
        0
    }

    fn to_bytes(&self) -> (body: Vec<u8>) {
        let mut body: Vec<u8> = Vec::new();
        push_u32_le(&mut body, self.start);
        push_u32_le(&mut body, self.end);
        body
    }

    fn from_body(body: &[u8]) -> (c: Option<FlashErase>) {
        if body.len() != 8 {
            return None;
        }
        let start = read_u32_at(body, 0);
        let end = read_u32_at(body, 4);
        Some(FlashErase { start, end })
    }
}

/// Asks the stub to write data to flash.
#[derive(Clone, Debug, Default)]
pub struct FlashProgram {
    /// Flash offset to write at.
    pub addr: u32,
    /// Up to 4000 bytes to write.
    pub data: Vec<u8>,
}

/// What a `FlashProgram` stands for.
pub struct FlashProgramView {
    pub addr: u32,
    pub data: Seq<u8>,
}

impl View for FlashProgram {
    type V = FlashProgramView;

    open spec fn view(&self) -> FlashProgramView {
        FlashProgramView { addr: self.addr, data: self.data@ }
    }
}

impl Command for FlashProgram {
    type Response = NoResponsePayload;

    open spec fn spec_id() -> u8 {
        0x31
    }

    open spec fn spec_body(c: FlashProgramView) -> Seq<u8> {
        le32(c.addr) + c.data
    }

    open spec fn spec_parse(body: Seq<u8>) -> Option<FlashProgramView> {
        if body.len() >= 4 {
            Some(
                FlashProgramView {
                    addr: le32_at(body, 0) as u32,
                    data: body.subrange(4, body.len() as int),
                },
            )
        } else {
            None
        }
    }

    proof fn lemma_round_trip(c: FlashProgramView) {
        lemma_le_write_read(0, c.addr);
        let body = Self::spec_body(c);
        assert(le32_at(body, 0) == le32_at(le32(c.addr), 0));
        assert(body.subrange(4, body.len() as int) =~= c.data);
    }

    fn cmd_id() -> (id: u8) {
        0x31
    }

    fn checksum(&self) -> (sum: u8) {
        0
    }

    fn to_bytes(&self) -> (body: Vec<u8>) {
        let mut body: Vec<u8> = Vec::new();
        push_u32_le(&mut body, self.addr);
        push_all(&mut body, self.data.as_slice());
        body
    }

    fn from_body(body: &[u8]) -> (c: Option<FlashProgram>) {
        if body.len() < 4 {
            return None;
        }
        let addr = read_u32_at(body, 0);
        Some(FlashProgram { addr, data: copy_range(body, 4, body.len()) })
    }
}

/// Asks the stub for the contents of a range of flash.
#[derive(Clone, Copy, Debug, Default, PartialEq, Eq, Structural)]
pub struct FlashRead {
    /// First flash offset to read.
    pub addr: u32,
    /// Number of bytes to read.
    pub size: u32,
}

impl View for FlashRead {
    type V = FlashRead;

    open spec fn view(&self) -> FlashRead {
        *self
    }
}

impl Command for FlashRead {
    type Response = FlashReadResp;

    open spec fn spec_id() -> u8 {
        0x32
    }

    open spec fn spec_body(c: FlashRead) -> Seq<u8> {
        le32(c.addr) + le32(c.size)
    }

    open spec fn spec_parse(body: Seq<u8>) -> Option<FlashRead> {
        if body.len() == 8 {
            Some(FlashRead { addr: le32_at(body, 0) as u32, size: le32_at(body, 4) as u32 })
        } else {
            None
        }
    }

    proof fn lemma_round_trip(c: FlashRead) {
        lemma_le_write_read(0, c.addr);
        lemma_le_write_read(0, c.size);
        let body = Self::spec_body(c);
        assert(le32_at(body, 0) == le32_at(le32(c.addr), 0));
        assert(le32_at(body, 4) == le32_at(le32(c.size), 0));
    }

    fn cmd_id() -> (id: u8) {
        0x32
    }

    fn checksum(&self) -> (sum: u8) {
        0
    }

    fn to_bytes(&self) -> (body: Vec<u8>) {
        let mut body: Vec<u8> = Vec::new();
        push_u32_le(&mut body, self.addr);
        push_u32_le(&mut body, self.size);
        body
    }

    fn from_body(body: &[u8]) -> (c: Option<FlashRead>) {
        if body.len() != 8 {
            return None;
        }
        let addr = read_u32_at(body, 0);
        let size = read_u32_at(body, 4);
        Some(FlashRead { addr, size })
    }
}

/// Contents of flash.
#[derive(Clone, Debug)]
pub struct FlashReadResp {
    /// Length of the payload, as the device declared it.
    pub len: u16,
    /// The payload.
    pub data: Vec<u8>,
}

impl View for FlashReadResp {
    type V = PayloadView;

    open spec fn view(&self) -> PayloadView {
        PayloadView { len: self.len, data: self.data@ }
    }
}

impl Response for FlashReadResp {
    open spec fn has_payload() -> bool {
        true
    }

    open spec fn spec_parse(input: Seq<u8>) -> Option<PayloadView> {
        spec_parse_payload(input)
    }

    fn from_payload(input: &[u8]) -> (r: Result<FlashReadResp, Error>) {
        match parse_payload(input) {
            Some((len, data)) => Ok(FlashReadResp { len, data }),
            None => Err(Error::ParseError),
        }
    }

    fn no_response_payload() -> (r: Option<FlashReadResp>) {
        None
    }
}

/// Asks the stub for the SHA-256 of a range of flash.
#[derive(Clone, Copy, Debug, Default, PartialEq, Eq, Structural)]
pub struct Sha256Read {
    /// First flash offset of the range.
    pub addr: u32,
    /// Number of bytes in the range.
    pub len: u32,
}

impl View for Sha256Read {
    type V = Sha256Read;

    open spec fn view(&self) -> Sha256Read {
        *self
    }
}

impl Command for Sha256Read {
    type Response = Sha256ReadResp;

    open spec fn spec_id() -> u8 {
        0x3d
    }

    open spec fn spec_body(c: Sha256Read) -> Seq<u8> {
        le32(c.addr) + le32(c.len)
    }

    open spec fn spec_parse(body: Seq<u8>) -> Option<Sha256Read> {
        if body.len() == 8 {
            Some(Sha256Read { addr: le32_at(body, 0) as u32, len: le32_at(body, 4) as u32 })
        } else {
            None
        }
    }

    proof fn lemma_round_trip(c: Sha256Read) {
        lemma_le_write_read(0, c.addr);
        lemma_le_write_read(0, c.len);
        let body = Self::spec_body(c);
        assert(le32_at(body, 0) == le32_at(le32(c.addr), 0));
        assert(le32_at(body, 4) == le32_at(le32(c.len), 0));
    }

    fn cmd_id() -> (id: u8) {
        0x3d
    }

    fn checksum(&self) -> (sum: u8) {
        0
    }

    fn to_bytes(&self) -> (body: Vec<u8>) {
        let mut body: Vec<u8> = Vec::new();
        push_u32_le(&mut body, self.addr);
        push_u32_le(&mut body, self.len);
        body
    }

    fn from_body(body: &[u8]) -> (c: Option<Sha256Read>) {
        if body.len() != 8 {
            return None;
        }
        let addr = read_u32_at(body, 0);
        let len = read_u32_at(body, 4);
        Some(Sha256Read { addr, len })
    }
}

/// The SHA-256 of a range of flash.
#[derive(Clone, Copy, Debug)]
pub struct Sha256ReadResp {
    pub digest: [u8; 32],
}

impl View for Sha256ReadResp {
    type V = Seq<u8>;

    open spec fn view(&self) -> Seq<u8> {
        self.digest@
    }
}

impl Response for Sha256ReadResp {
    open spec fn has_payload() -> bool {
        true
    }

    /// The two bytes `20 00`, which declare the 32 bytes of the digest,
    /// then the digest; what follows it is ignored.
    open spec fn spec_parse(input: Seq<u8>) -> Option<Seq<u8>> {
        if input.len() >= 34 && input[0] == 0x20 && input[1] == 0x00 {
            Some(input.subrange(2, 34))
        } else {
            None
        }
    }

    fn from_payload(input: &[u8]) -> (r: Result<Sha256ReadResp, Error>) {
        if input.len() < 34 || input[0] != 0x20 || input[1] != 0x00 {
            return Err(Error::ParseError);
        }
        let mut digest = [0u8;32];
        let mut i: usize = 0;
        while i < 32
            invariant
                i <= 32,
                input@.len() >= 34,
                forall|j: int| 0 <= j < i ==> digest@[j] == input@[2 + j],
            decreases 32 - i,
        {
            digest[i] = input[2 + i];
            i += 1;
        }
        assert(digest@ =~= input@.subrange(2, 34));
        Ok(Sha256ReadResp { digest })
    }

    fn no_response_payload() -> (r: Option<Sha256ReadResp>) {
        None
    }
}

} // verus!
