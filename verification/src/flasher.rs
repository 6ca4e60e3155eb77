//! A flashing session, from the handshake to the reset that starts the new
//! firmware.
//!
//! A `Flasher` never touches the port. Each operation hands out the first
//! action that it needs performed; `step` takes the event that tells how
//! the action went and hands out the next one, until the operation has
//! ended. What the session does is therefore a function of the events it
//! is given: `spec_step`.

use vstd::prelude::*;
use crate::bootrom::{chunk_of, rest_of, sending, BootRom};
use crate::bytes::{copy_range, fill, le32, push_fill, same_bytes};
use crate::chip::Chip;
use crate::connection::{
    bytes_for_duration, reset_sequence, reset_step, reset_to_flash_sequence, reset_to_flash_step,
    Connection, ConnectionView, Stage,
};
use crate::digest::{sha256, sha256_digest};
use crate::eflash_loader::EflashLoader;
use crate::elf::{low32, rom_views, RomSegment, RomSegmentView};
use crate::error::Error;
use crate::image::BinReader;
use crate::protocol::{
    spec_frame, spec_parse_payload, BootInfo, BootInfoView, Response, Sha256ReadResp,
};
use crate::transport::{Action, ActionView, Event, EventView, Poll, PollView};

verus! {

/// Handshake attempts that `connect` makes before it gives up.
pub const CONNECT_ATTEMPTS: u8 = 10;

/// Responses that one handshake waits for before it gives up.
pub const HANDSHAKE_READS: u8 = 5;

/// Read timeout during a handshake, in milliseconds.
pub const HANDSHAKE_TIMEOUT_MS: u64 = 200;

/// Read timeout of a session once connected, in milliseconds.
pub const SESSION_TIMEOUT_MS: u64 = 10_000;

/// Length of the handshake burst, in milliseconds.
pub const HANDSHAKE_BURST_MS: u64 = 5;

/// Time that the device is given to take in the burst, in milliseconds.
pub const HANDSHAKE_SETTLE_MS: u64 = 200;

/// Time that the stub is given to start, in milliseconds.
pub const STUB_START_MS: u64 = 500;

/// Most bytes that one `FlashRead` of a dump asks for.
pub const DUMP_BLOCK_SIZE: u32 = 4096;

/// What a session has been asked to do.
#[derive(Clone, Copy, Debug, PartialEq, Eq, Structural)]
pub enum Job {
    Connect,
    LoadEflashLoader,
    LoadSegments,
    CheckSegments,
    DumpFlash,
    Reset,
}

/// What a session is waiting for.
#[derive(Clone, Copy, Debug, PartialEq, Eq, Structural)]
pub enum Phase {
    /// Nothing: no operation is under way.
    Idle,
    /// The initial baud rate is being set.
    InitialBaud,
    /// A step of the reset into download mode is under way.
    ResetToFlash,
    /// The flush before a handshake attempt is under way.
    ConnectFlush,
    /// Handshake: the read timeout is being asked for.
    HsGetTimeout,
    /// Handshake: the short read timeout is being set.
    HsSetTimeout,
    /// Handshake: the burst is being written.
    HsWrite,
    /// Handshake: the burst is being flushed.
    HsFlush,
    /// Handshake: the device is given time.
    HsSleep,
    /// Handshake: a response is being read.
    HsRead,
    /// Handshake: the read timeout is being set back.
    HsRestore,
    /// The read timeout of the session is being set.
    SessionTimeout,
    /// `BootInfoReq` is under way.
    BootInfo,
    /// `LoadBootHeader` is under way.
    BootHeader,
    /// `LoadSegmentHeaderReq` is under way.
    SegmentHeader,
    /// `LoadSegmentData` is under way.
    SegmentData,
    /// `CheckImage` is under way.
    CheckImage,
    /// `RunImage` is under way.
    RunImage,
    /// The stub is given time to start.
    StubSleep,
    /// The baud rate for flashing is being set.
    FlashBaud,
    /// `Sha256Read` before a segment is written is under way.
    HashBefore,
    /// `FlashErase` is under way.
    Erase,
    /// `FlashProgram` is under way.
    Program,
    /// `Sha256Read` after a segment was written is under way.
    HashAfter,
    /// `Sha256Read` of a check is under way.
    CheckHash,
    /// `FlashRead` is under way.
    DumpRead,
    /// A block of the dump is being written out.
    DumpOutput,
    /// A step of the reset into the firmware is under way.
    Reset,
}

/// What a session found worth telling.
#[derive(Clone, Copy, Debug, PartialEq, Eq, Structural)]
pub enum Notice {
    /// The boot ROM echoed another segment header than it was sent.
    SegmentHeaderMismatch,
    /// The flash already held the segment, which was therefore not written.
    Skipped { addr: u32, size: u32 },
    /// The flash holds the segment.
    HashMatch { addr: u32 },
    /// The flash does not hold the segment.
    HashMismatch { addr: u32 },
}

/// What became of the action last asked for, as an operation sees it.
pub enum Outcome {
    /// It was done.
    Done,
    /// The exchange ended with `"OK"`, followed by these bytes.
    Reply(Seq<u8>),
    /// The read timeout, in milliseconds.
    Timeout(u64),
    /// It failed.
    Failed(Error),
}

/// A session with a device.
pub struct Flasher {
    connection: Connection,
    boot_info: BootInfo,
    eflash_loader: Vec<u8>,
    flash_speed: usize,
    job: Job,
    phase: Phase,
    /// Step of a reset sequence that is under way.
    step: usize,
    /// Handshake attempt of `connect` that is under way.
    attempt: u8,
    /// Response of a handshake that is being read.
    reads: u8,
    old_timeout: u64,
    /// The error that the handshake ended with, if any.
    hs_result: Option<Error>,
    /// What is left to upload of the stub.
    stub: BinReader,
    sent_header: Vec<u8>,
    segments: Vec<RomSegment>,
    index: usize,
    force: bool,
    local_hash: [u8; 32],
    /// What is left to program of the segment.
    reader: BinReader,
    cur: u32,
    dump_cur: u32,
    dump_end: u32,
    pending: usize,
    notices: Vec<Notice>,
}

/// What a `Flasher` stands for.
pub struct FlasherView {
    pub conn: ConnectionView,
    pub boot_info: BootInfoView,
    pub eflash_loader: Seq<u8>,
    pub flash_speed: usize,
    pub job: Job,
    pub phase: Phase,
    pub step: usize,
    pub attempt: u8,
    pub reads: u8,
    pub old_timeout: u64,
    pub hs_result: Option<Error>,
    pub stub: Seq<u8>,
    pub sent_header: Seq<u8>,
    pub segments: Seq<RomSegmentView>,
    pub index: usize,
    pub force: bool,
    pub local_hash: Seq<u8>,
    pub reader: Seq<u8>,
    pub cur: u32,
    pub dump_cur: u32,
    pub dump_end: u32,
    pub pending: usize,
    pub notices: Seq<Notice>,
}

impl FlasherView {
    /// Whether the session can go on without running out of flash offsets:
    /// every segment ends within their 32-bit range, and so does what is
    /// left to program of the segment at hand; and the segments can be
    /// counted.
    pub open spec fn valid(self) -> bool {
        &&& segments_fit(self.segments)
        &&& self.cur + self.reader.len() <= u32::MAX
        &&& self.segments.len() <= usize::MAX
    }
}

/// What an operation wants next.
pub type Step = Poll<Result<(), Error>>;

/// What a `Step` stands for.
pub type StepView = PollView<Result<(), Error>>;

/// What a `Step` stands for.
pub open spec fn step_view(step: Step) -> StepView {
    match step {
        Poll::Do(action) => PollView::Do(action@),
        Poll::Ready(r) => PollView::Ready(r),
    }
}

/// Whether every segment ends within the 32-bit range of flash offsets.
pub open spec fn segments_fit(segments: Seq<RomSegmentView>) -> bool {
    forall|i: int|
        0 <= i < segments.len() ==> (#[trigger] segments[i]).addr + segments[i].data.len()
            <= u32::MAX
}

/// The operation ends with an error.
pub open spec fn fail(s: FlasherView, e: Error) -> (FlasherView, StepView) {
    (FlasherView { phase: Phase::Idle, ..s }, PollView::Ready(Err(e)))
}

/// The operation ends well.
pub open spec fn finish(s: FlasherView) -> (FlasherView, StepView) {
    (FlasherView { phase: Phase::Idle, ..s }, PollView::Ready(Ok(())))
}

/// The operation asks for an action and waits in `phase`.
pub open spec fn ask(s: FlasherView, phase: Phase, action: ActionView) -> (FlasherView, StepView) {
    (FlasherView { phase, ..s }, PollView::Do(action))
}

/// The operation begins the exchange of a command and waits in `phase`.
pub open spec fn send(s: FlasherView, phase: Phase, id: u8, body: Seq<u8>, framed: bool) -> (
    FlasherView,
    StepView,
) {
    (
        FlasherView { phase, conn: sending(s.conn, framed), ..s },
        PollView::Do(ActionView::Write(spec_frame(id, body))),
    )
}

/// The baud rate that the handshake burst is counted in.
pub open spec fn speed_of(c: ConnectionView) -> usize {
    Connection::spec_speed(c)
}

/// A handshake begins: the read timeout is asked for, to be set back at
/// the end.
pub open spec fn begin_handshake(s: FlasherView) -> (FlasherView, StepView) {
    ask(s, Phase::HsGetTimeout, ActionView::GetTimeout)
}

/// The burst of a handshake: as many `0x55` as take 5 ms at the current
/// baud rate.
pub open spec fn burst(s: FlasherView) -> Seq<u8> {
    fill(0x55, bytes_for_duration(speed_of(s.conn) as int, 5) as nat)
}

/// The handshake has its result and sets the read timeout back.
pub open spec fn restore(s: FlasherView, result: Option<Error>) -> (FlasherView, StepView) {
    ask(
        FlasherView { hs_result: result, ..s },
        Phase::HsRestore,
        ActionView::SetTimeout(s.old_timeout),
    )
}

/// The handshake reads its response number `k`.
pub open spec fn read_status(s: FlasherView, k: u8) -> (FlasherView, StepView) {
    (
        FlasherView {
            phase: Phase::HsRead,
            reads: k,
            conn: ConnectionView { stage: Stage::Status, want: 0, framed: false, ..s.conn },
            ..s
        },
        PollView::Do(ActionView::Read(2)),
    )
}

/// The handshake has ended, with an error or without. While connecting, a
/// failed handshake is followed by the next attempt, and the tenth by
/// `Error::ConnectionFailed`; a handshake with the stub ends the operation
/// with its error. After a handshake that went well the operation goes on.
pub open spec fn handshake_done(s: FlasherView, result: Option<Error>) -> (FlasherView, StepView) {
    if s.job == Job::Connect {
        match result {
            None => ask(s, Phase::SessionTimeout, ActionView::SetTimeout(SESSION_TIMEOUT_MS)),
            Some(_) => if s.attempt < CONNECT_ATTEMPTS {
                ask(
                    FlasherView { attempt: (s.attempt + 1) as u8, ..s },
                    Phase::ConnectFlush,
                    ActionView::Flush,
                )
            } else {
                fail(s, Error::ConnectionFailed)
            },
        }
    } else {
        match result {
            None => begin_body(s),
            Some(e) => fail(s, e),
        }
    }
}

/// The upload of the stub begins: its first 176 bytes go out as the boot
/// header.
pub open spec fn begin_loader(s: FlasherView) -> (FlasherView, StepView) {
    let t = FlasherView { stub: rest_of(s.eflash_loader, 176), ..s };
    if s.eflash_loader.len() >= 176 {
        send(t, Phase::BootHeader, 0x11, s.eflash_loader.subrange(0, 176), false)
    } else {
        fail(t, Error::IO)
    }
}

/// The next 16 bytes of the stub go out as the segment header.
pub open spec fn load_header(s: FlasherView) -> (FlasherView, StepView) {
    let t = FlasherView { stub: rest_of(s.stub, 16), ..s };
    if s.stub.len() >= 16 {
        send(
            FlasherView { sent_header: s.stub.subrange(0, 16), ..t },
            Phase::SegmentHeader,
            0x17,
            s.stub.subrange(0, 16),
            true,
        )
    } else {
        fail(t, Error::IO)
    }
}

/// The next 4000 bytes of the stub go out, or fewer if fewer are left; once
/// none are left, the image is checked.
pub open spec fn next_stub_chunk(s: FlasherView) -> (FlasherView, StepView) {
    if s.stub.len() > 0 {
        send(
            FlasherView { stub: rest_of(s.stub, 4000), ..s },
            Phase::SegmentData,
            0x18,
            chunk_of(s.stub, 4000),
            false,
        )
    } else {
        send(s, Phase::CheckImage, 0x19, Seq::empty(), false)
    }
}

/// The stub runs and has answered the handshake: what the operation was
/// asked for begins.
pub open spec fn begin_body(s: FlasherView) -> (FlasherView, StepView) {
    match s.job {
        Job::LoadSegments | Job::CheckSegments => next_segment(FlasherView { index: 0, ..s }),
        Job::DumpFlash => next_dump(s),
        _ => finish(s),
    }
}

/// The body of `Sha256Read` for a segment.
pub open spec fn hash_query(segment: RomSegmentView) -> Seq<u8> {
    le32(segment.addr) + le32(low32(segment.data.len() as int))
}

/// The segment at `index` has its turn, or the operation ends if there is
/// none. A check asks for the hash of the flash; so does a write that may
/// skip; a forced write erases at once.
pub open spec fn next_segment(s: FlasherView) -> (FlasherView, StepView) {
    if s.index < s.segments.len() {
        let segment = s.segments[s.index as int];
        let t = FlasherView { local_hash: sha256_digest(segment.data), ..s };
        if s.job == Job::CheckSegments {
            send(t, Phase::CheckHash, 0x3d, hash_query(segment), true)
        } else if !s.force {
            send(t, Phase::HashBefore, 0x3d, hash_query(segment), true)
        } else {
            begin_erase(t)
        }
    } else {
        finish(s)
    }
}

/// The range of the segment at `index` is erased.
pub open spec fn begin_erase(s: FlasherView) -> (FlasherView, StepView) {
    let segment = s.segments[s.index as int];
    send(
        FlasherView { reader: segment.data, cur: segment.addr, ..s },
        Phase::Erase,
        0x30,
        le32(segment.addr) + le32((segment.addr + segment.data.len()) as u32),
        false,
    )
}

/// The next 4000 bytes of the segment are programmed, or fewer if fewer
/// are left; once none are left, the hash of the flash is asked for.
pub open spec fn next_chunk(s: FlasherView) -> (FlasherView, StepView) {
    if s.reader.len() > 0 {
        send(
            FlasherView {
                reader: rest_of(s.reader, 4000),
                cur: (s.cur + chunk_of(s.reader, 4000).len()) as u32,
                ..s
            },
            Phase::Program,
            0x31,
            le32(s.cur) + chunk_of(s.reader, 4000),
            false,
        )
    } else {
        send(s, Phase::HashAfter, 0x3d, hash_query(s.segments[s.index as int]), true)
    }
}

/// The segment at `index` is done with; `notice`, if any, is taken down.
pub open spec fn segment_done(s: FlasherView, notice: Option<Notice>) -> (FlasherView, StepView) {
    next_segment(
        FlasherView {
            index: (s.index + 1) as usize,
            notices: match notice {
                Some(n) => s.notices.push(n),
                None => s.notices,
            },
            ..s
        },
    )
}

/// The next block of a dump is asked for: up to 4096 bytes; or the
/// operation ends, once the range is exhausted.
pub open spec fn next_dump(s: FlasherView) -> (FlasherView, StepView) {
    if s.dump_cur < s.dump_end {
        let left = s.dump_end - s.dump_cur;
        let size = if left < DUMP_BLOCK_SIZE {
            left as u32
        } else {
            DUMP_BLOCK_SIZE
        };
        send(s, Phase::DumpRead, 0x32, le32(s.dump_cur) + le32(size), true)
    } else {
        finish(s)
    }
}

/// Whether an outcome answers what a phase waits for.
pub open spec fn answers(phase: Phase, outcome: Outcome) -> bool {
    match outcome {
        Outcome::Failed(_) => true,
        Outcome::Timeout(_) => phase == Phase::HsGetTimeout,
        Outcome::Reply(_) => in_exchange(phase),
        Outcome::Done => phase != Phase::Idle && phase != Phase::HsGetTimeout && !in_exchange(
            phase,
        ),
    }
}

/// Whether a phase waits for the end of an exchange.
pub open spec fn in_exchange(phase: Phase) -> bool {
    match phase {
        Phase::HsRead
        | Phase::BootInfo
        | Phase::BootHeader
        | Phase::SegmentHeader
        | Phase::SegmentData
        | Phase::CheckImage
        | Phase::RunImage
        | Phase::HashBefore
        | Phase::Erase
        | Phase::Program
        | Phase::HashAfter
        | Phase::CheckHash
        | Phase::DumpRead => true,
        _ => false,
    }
}

/// What a failure does to an operation: within a handshake it is the
/// result of the handshake, or calls for the next read; anywhere else it
/// ends the operation.
pub open spec fn on_failure(s: FlasherView, e: Error) -> (FlasherView, StepView) {
    match s.phase {
        Phase::Idle => (s, PollView::Ready(Err(Error::IO))),
        Phase::HsGetTimeout | Phase::HsSetTimeout | Phase::HsRestore => handshake_done(s, Some(e)),
        Phase::HsWrite | Phase::HsFlush | Phase::HsSleep => restore(s, Some(e)),
        Phase::HsRead => if s.reads < HANDSHAKE_READS {
            read_status(s, (s.reads + 1) as u8)
        } else {
            restore(s, Some(Error::Timeout))
        },
        _ => fail(s, e),
    }
}

/// What an action that was done does to an operation.
pub open spec fn on_done(s: FlasherView) -> (FlasherView, StepView) {
    match s.phase {
        Phase::InitialBaud => ask(
            FlasherView { step: 0, ..s },
            Phase::ResetToFlash,
            reset_to_flash_sequence()[0],
        ),
        Phase::ResetToFlash => if s.step < 7 {
            ask(
                FlasherView { step: (s.step + 1) as usize, ..s },
                Phase::ResetToFlash,
                reset_to_flash_sequence()[s.step + 1],
            )
        } else {
            ask(FlasherView { attempt: 1, ..s }, Phase::ConnectFlush, ActionView::Flush)
        },
        Phase::ConnectFlush => begin_handshake(s),
        Phase::HsSetTimeout => ask(s, Phase::HsWrite, ActionView::Write(burst(s))),
        Phase::HsWrite => ask(s, Phase::HsFlush, ActionView::Flush),
        Phase::HsFlush => ask(s, Phase::HsSleep, ActionView::Sleep(HANDSHAKE_SETTLE_MS)),
        Phase::HsSleep => read_status(s, 1),
        Phase::HsRestore => handshake_done(s, s.hs_result),
        Phase::SessionTimeout => send(s, Phase::BootInfo, 0x10, Seq::empty(), true),
        Phase::StubSleep => ask(
            FlasherView { conn: ConnectionView { baud_rate: Some(s.flash_speed), ..s.conn }, ..s },
            Phase::FlashBaud,
            ActionView::SetBaud(s.flash_speed),
        ),
        Phase::FlashBaud => begin_handshake(s),
        Phase::DumpOutput => next_dump(
            FlasherView {
                dump_cur: if s.dump_cur + s.pending > u32::MAX {
                    u32::MAX
                } else {
                    (s.dump_cur + s.pending) as u32
                },
                ..s
            },
        ),
        Phase::Reset => if s.step < 5 {
            ask(
                FlasherView { step: (s.step + 1) as usize, ..s },
                Phase::Reset,
                reset_sequence()[s.step + 1],
            )
        } else {
            finish(s)
        },
        _ => on_failure(s, Error::IO),
    }
}

/// What the end of an exchange does to an operation; `reply` is what
/// followed `"OK"`.
pub open spec fn on_reply(s: FlasherView, reply: Seq<u8>) -> (FlasherView, StepView) {
    match s.phase {
        Phase::HsRead => restore(s, None),
        Phase::BootInfo => match BootInfo::spec_parse(reply) {
            Some(info) => finish(FlasherView { boot_info: info, ..s }),
            None => fail(s, Error::ParseError),
        },
        Phase::BootHeader => load_header(s),
        Phase::SegmentHeader => match spec_parse_payload(reply) {
            Some(echo) => next_stub_chunk(
                FlasherView {
                    notices: if echo.data == s.sent_header {
                        s.notices
                    } else {
                        s.notices.push(Notice::SegmentHeaderMismatch)
                    },
                    ..s
                },
            ),
            None => fail(s, Error::ParseError),
        },
        Phase::SegmentData => next_stub_chunk(s),
        Phase::CheckImage => send(s, Phase::RunImage, 0x1a, Seq::empty(), false),
        Phase::RunImage => ask(s, Phase::StubSleep, ActionView::Sleep(STUB_START_MS)),
        Phase::HashBefore | Phase::HashAfter | Phase::CheckHash => if s.index < s.segments.len() {
            on_hash(s, Sha256ReadResp::spec_parse(reply))
        } else {
            fail(s, Error::IO)
        },
        Phase::Erase | Phase::Program => if s.index < s.segments.len() {
            next_chunk(s)
        } else {
            fail(s, Error::IO)
        },
        Phase::DumpRead => match spec_parse_payload(reply) {
            Some(block) => ask(
                FlasherView { pending: block.data.len() as usize, ..s },
                Phase::DumpOutput,
                ActionView::Output(block.data),
            ),
            None => fail(s, Error::ParseError),
        },
        _ => on_failure(s, Error::IO),
    }
}

/// What the hash of the flash does to an operation. Before a write, a hash
/// that equals that of the segment has the segment skipped, any other has
/// it erased and programmed. After a write, and in a check, the segment is
/// done with either way; a hash that differs is taken down.
pub open spec fn on_hash(s: FlasherView, digest: Option<Seq<u8>>) -> (FlasherView, StepView) {
    let segment = s.segments[s.index as int];
    match digest {
        None => fail(s, Error::ParseError),
        Some(d) => if s.phase == Phase::HashBefore {
            if d == s.local_hash {
                segment_done(
                    s,
                    Some(
                        Notice::Skipped {
                            addr: segment.addr,
                            size: low32(segment.data.len() as int),
                        },
                    ),
                )
            } else {
                begin_erase(s)
            }
        } else if d == s.local_hash {
            segment_done(
                s,
                if s.phase == Phase::CheckHash {
                    Some(Notice::HashMatch { addr: segment.addr })
                } else {
                    None
                },
            )
        } else {
            segment_done(s, Some(Notice::HashMismatch { addr: segment.addr }))
        },
    }
}

/// What an outcome does to an operation. An outcome that does not answer
/// what the operation waits for counts as a failure with `Error::IO`.
pub open spec fn advance(s: FlasherView, outcome: Outcome) -> (FlasherView, StepView) {
    if !answers(s.phase, outcome) {
        on_failure(s, Error::IO)
    } else {
        match outcome {
            Outcome::Failed(e) => on_failure(s, e),
            Outcome::Done => on_done(s),
            Outcome::Timeout(ms) => ask(
                FlasherView { old_timeout: ms, ..s },
                Phase::HsSetTimeout,
                ActionView::SetTimeout(HANDSHAKE_TIMEOUT_MS),
            ),
            Outcome::Reply(reply) => on_reply(s, reply),
        }
    }
}

/// The step of a session: what the session is after an event, and what it
/// wants next. While an exchange is under way the event goes to the
/// connection, and the operation takes its turn when the exchange has
/// ended.
pub open spec fn spec_step(s: FlasherView, event: EventView) -> (FlasherView, StepView) {
    if in_exchange(s.phase) {
        let (conn, poll) = crate::connection::spec_step(s.conn, event);
        let t = FlasherView { conn, ..s };
        match poll {
            PollView::Do(action) => (t, PollView::Do(action)),
            PollView::Ready(Ok(reply)) => advance(t, Outcome::Reply(reply)),
            PollView::Ready(Err(e)) => advance(t, Outcome::Failed(e)),
        }
    } else {
        match event {
            EventView::Done => advance(s, Outcome::Done),
            EventView::Timeout(ms) => advance(s, Outcome::Timeout(ms)),
            EventView::Failed(e) => advance(s, Outcome::Failed(e)),
            EventView::Data(_) => advance(s, Outcome::Failed(Error::IO)),
        }
    }
}

/// The session that `connect` begins: nothing known of the device yet, the
/// initial baud rate taken down, and the port about to be set to it.
pub open spec fn connecting(loader: Seq<u8>, initial_speed: usize, flash_speed: usize)
    -> FlasherView {
    FlasherView {
        conn: ConnectionView {
            baud_rate: Some(initial_speed),
            stage: Stage::Idle,
            want: 0,
            framed: false,
            head: Seq::empty(),
        },
        boot_info: BootInfoView { len: 0, bootrom_version: 0, otp_info: fill(0, 16) },
        eflash_loader: loader,
        flash_speed,
        job: Job::Connect,
        phase: Phase::InitialBaud,
        step: 0,
        attempt: 0,
        reads: 0,
        old_timeout: 0,
        hs_result: None,
        stub: Seq::empty(),
        sent_header: Seq::empty(),
        segments: Seq::empty(),
        index: 0,
        force: false,
        local_hash: fill(0, 32),
        reader: Seq::empty(),
        cur: 0,
        dump_cur: 0,
        dump_end: 0,
        pending: 0,
        notices: Seq::empty(),
    }
}

/// An operation on segments begins with the upload of the stub; one with
/// a segment that reaches beyond the 32-bit range of flash offsets ends at
/// once with `Error::OverSizedPacket`.
pub open spec fn start_segments(
    s: FlasherView,
    job: Job,
    force: bool,
    segments: Seq<RomSegmentView>,
) -> (FlasherView, StepView) {
    if segments_fit(segments) {
        begin_loader(FlasherView { job, force, segments, index: 0, ..s })
    } else {
        fail(s, Error::OverSizedPacket)
    }
}

/// A dump begins with the upload of the stub.
pub open spec fn start_dump(s: FlasherView, start: u32, end: u32) -> (FlasherView, StepView) {
    begin_loader(FlasherView { job: Job::DumpFlash, dump_cur: start, dump_end: end, ..s })
}

/// The reset into the firmware begins with its first step.
pub open spec fn start_reset(s: FlasherView) -> (FlasherView, StepView) {
    ask(FlasherView { job: Job::Reset, step: 0, ..s }, Phase::Reset, reset_sequence()[0])
}

impl View for Flasher {
    type V = FlasherView;

    closed spec fn view(&self) -> FlasherView {
        FlasherView {
            conn: self.connection@,
            boot_info: self.boot_info@,
            eflash_loader: self.eflash_loader@,
            flash_speed: self.flash_speed,
            job: self.job,
            phase: self.phase,
            step: self.step,
            attempt: self.attempt,
            reads: self.reads,
            old_timeout: self.old_timeout,
            hs_result: self.hs_result,
            stub: self.stub.remaining(),
            sent_header: self.sent_header@,
            segments: rom_views(self.segments@),
            index: self.index,
            force: self.force,
            local_hash: self.local_hash@,
            reader: self.reader.remaining(),
            cur: self.cur,
            dump_cur: self.dump_cur,
            dump_end: self.dump_end,
            pending: self.pending,
            notices: self.notices@,
        }
    }
}

/// Whether every segment ends within the 32-bit range of flash offsets.
pub fn check_segments_fit(segments: &Vec<RomSegment>) -> (fit: bool)
    ensures
        fit == segments_fit(rom_views(segments@)),
{
    let mut i: usize = 0;
    while i < segments.len()
        invariant
            i <= segments.len(),
            segments_fit(rom_views(segments@).subrange(0, i as int)),
        decreases segments.len() - i,
    {
        let ghost all = rom_views(segments@);
        if segments[i].data.len() > (u32::MAX - segments[i].addr) as usize {
            assert(all[i as int].addr + all[i as int].data.len() > u32::MAX);
            return false;
        }
        assert forall|j: int| 0 <= j < i + 1 implies (#[trigger] all.subrange(0, i + 1)[j]).addr
            + all.subrange(0, i + 1)[j].data.len() <= u32::MAX by {
            if j < i {
                assert(all.subrange(0, i as int)[j] == all[j]);
            }
        }
        i += 1;
    }
    assert(rom_views(segments@).subrange(0, i as int) =~= rom_views(segments@));
    true
}

impl Flasher {
    /// Begins a session: the stub of `chip` is kept for later, and the port
    /// is to be set to `initial_speed`. `step` then leads through the reset
    /// into download mode, up to ten handshakes, the read timeout of ten
    /// seconds and the request for the boot information.
    pub fn connect<C: Chip>(chip: &C, initial_speed: usize, flash_speed: usize) -> (r: (
        Flasher,
        Step,
    ))
        ensures
            r.0@ == connecting(chip.eflash_loader(), initial_speed, flash_speed),
            r.0@.valid(),
            step_view(r.1) == StepView::Do(ActionView::SetBaud(initial_speed)),
    {
        let loader = chip.get_eflash_loader();
        let eflash_loader = copy_range(loader, 0, loader.len());
        assert(eflash_loader@ =~= chip.eflash_loader());
        let mut connection = Connection::new();
        let ghost fresh = connection@;
        let action = connection.set_baud(initial_speed);
        let boot_info = BootInfo::default();
        assert(boot_info@.otp_info =~= fill(0, 16));
        let local_hash = [0u8;32];
        assert(local_hash@ =~= fill(0, 32));
        let flasher = Flasher {
            connection,
            boot_info,
            eflash_loader,
            flash_speed,
            job: Job::Connect,
            phase: Phase::InitialBaud,
            step: 0,
            attempt: 0,
            reads: 0,
            old_timeout: 0,
            hs_result: None,
            stub: BinReader::new(Vec::new()),
            sent_header: Vec::new(),
            segments: Vec::new(),
            index: 0,
            force: false,
            local_hash,
            reader: BinReader::new(Vec::new()),
            cur: 0,
            dump_cur: 0,
            dump_end: 0,
            pending: 0,
            notices: Vec::new(),
        };
        assert(rom_views(flasher.segments@) =~= Seq::<RomSegmentView>::empty());
        assert(flasher@.conn.head =~= Seq::<u8>::empty());
        (flasher, Poll::Do(action))
    }

    /// Gives up the session and hands back its connection.
    pub fn into_inner(self) -> (connection: Connection)
        ensures
            connection@ == self@.conn,
    {
        self.connection
    }

    /// What the boot ROM said of itself when the session was connected.
    pub fn boot_info(&self) -> (info: &BootInfo)
        ensures
            info@ == self@.boot_info,
    {
        &self.boot_info
    }

    /// Whether no operation is under way.
    pub fn is_idle(&self) -> (idle: bool)
        ensures
            idle == (self@.phase == Phase::Idle),
    {
        self.phase == Phase::Idle
    }

    /// Hands over what the session has found worth telling since this was
    /// last called.
    pub fn take_notices(&mut self) -> (notices: Vec<Notice>)
        requires
            old(self)@.valid(),
        ensures
            notices@ == old(self)@.notices,
            final(self)@ == (FlasherView { notices: Seq::empty(), ..old(self)@ }),
            final(self)@.valid(),
    {
        let mut notices: Vec<Notice> = Vec::new();
        std::mem::swap(&mut notices, &mut self.notices);
        notices
    }

    /// Begins writing `segments` to flash: uploads the stub, then takes the
    /// segments in order. Unless `force` is set, a segment whose SHA-256 the
    /// flash already holds is skipped; any other is erased, programmed in
    /// pieces of up to 4000 bytes, and its hash read back. A hash that
    /// differs after the write is taken down as a notice and does not end
    /// the operation.
    pub fn load_segments(&mut self, force: bool, segments: Vec<RomSegment>) -> (r: Step)
        requires
            old(self)@.valid(),
        ensures
            (final(self)@, step_view(r)) == start_segments(
                old(self)@,
                Job::LoadSegments,
                force,
                rom_views(segments@),
            ),
            final(self)@.valid(),
    {
        if !check_segments_fit(&segments) {
            return self.fail(Error::OverSizedPacket);
        }
        self.job = Job::LoadSegments;
        self.force = force;
        self.segments = segments;
        self.index = 0;
        let count = self.segments.len();
        assert(rom_views(self.segments@).len() == count);
        self.begin_loader()
    }

    /// Begins checking the flash against `segments`: uploads the stub, then
    /// asks for the SHA-256 of the range of each segment and takes down
    /// whether it is that of the segment. Nothing is written.
    pub fn check_segments(&mut self, segments: Vec<RomSegment>) -> (r: Step)
        requires
            old(self)@.valid(),
        ensures
            (final(self)@, step_view(r)) == start_segments(
                old(self)@,
                Job::CheckSegments,
                old(self)@.force,
                rom_views(segments@),
            ),
            final(self)@.valid(),
    {
        if !check_segments_fit(&segments) {
            return self.fail(Error::OverSizedPacket);
        }
        self.job = Job::CheckSegments;
        self.segments = segments;
        self.index = 0;
        let count = self.segments.len();
        assert(rom_views(self.segments@).len() == count);
        self.begin_loader()
    }

    /// Begins dumping the flash from `start` up to `end`: uploads the stub,
    /// then reads blocks of up to 4096 bytes and hands each out as an
    /// `Output` action.
    pub fn dump_flash(&mut self, start: u32, end: u32) -> (r: Step)
        requires
            old(self)@.valid(),
        ensures
            (final(self)@, step_view(r)) == start_dump(old(self)@, start, end),
            final(self)@.valid(),
    {
        self.job = Job::DumpFlash;
        self.dump_cur = start;
        self.dump_end = end;
        self.begin_loader()
    }

    /// Begins uploading and starting the stub: boot header, segment header,
    /// the rest in pieces of up to 4000 bytes, `CheckImage`, `RunImage`, a
    /// wait of 500 ms, the baud rate for flashing, and a handshake.
    pub fn load_eflash_loader(&mut self) -> (r: Step)
        requires
            old(self)@.valid(),
        ensures
            (final(self)@, step_view(r)) == begin_loader(
                FlasherView { job: Job::LoadEflashLoader, ..old(self)@ },
            ),
            final(self)@.valid(),
    {
        self.job = Job::LoadEflashLoader;
        self.begin_loader()
    }

    /// Begins the reset that starts the firmware.
    pub fn reset(&mut self) -> (r: Step)
        requires
            old(self)@.valid(),
        ensures
            (final(self)@, step_view(r)) == start_reset(old(self)@),
            final(self)@.valid(),
    {
        self.job = Job::Reset;
        self.step = 0;
        self.phase = Phase::Reset;
        Poll::Do(reset_step(0))
    }

    /// Takes the event that answers the action last asked for, and says
    /// what the operation under way wants next: another action, or nothing
    /// more, with its result.
    pub fn step(&mut self, event: Event) -> (r: Step)
        requires
            old(self)@.valid(),
        ensures
            (final(self)@, step_view(r)) == spec_step(old(self)@, event@),
            final(self)@.valid(),
    {
        if Self::waits_for_exchange(self.phase) {
            match self.connection.step(event) {
                Poll::Do(action) => Poll::Do(action),
                Poll::Ready(Ok(reply)) => self.on_reply(reply),
                Poll::Ready(Err(e)) => self.on_failure(e),
            }
        } else {
            match event {
                Event::Done => {
                    if self.phase == Phase::Idle || self.phase == Phase::HsGetTimeout {
                        self.on_failure(Error::IO)
                    } else {
                        self.on_done()
                    }
                },
                Event::Timeout(ms) => {
                    if self.phase == Phase::HsGetTimeout {
                        self.old_timeout = ms;
                        self.phase = Phase::HsSetTimeout;
                        Poll::Do(Action::SetTimeout(HANDSHAKE_TIMEOUT_MS))
                    } else {
                        self.on_failure(Error::IO)
                    }
                },
                Event::Failed(e) => self.on_failure(e),
                Event::Data(d) => self.on_failure(Error::IO),
            }
        }
    }

    fn waits_for_exchange(phase: Phase) -> (waits: bool)
        ensures
            waits == in_exchange(phase),
    {
        match phase {
            Phase::HsRead
            | Phase::BootInfo
            | Phase::BootHeader
            | Phase::SegmentHeader
            | Phase::SegmentData
            | Phase::CheckImage
            | Phase::RunImage
            | Phase::HashBefore
            | Phase::Erase
            | Phase::Program
            | Phase::HashAfter
            | Phase::CheckHash
            | Phase::DumpRead => true,
            _ => false,
        }
    }

    fn fail(&mut self, e: Error) -> (r: Step)
        requires
            old(self)@.valid(),
        ensures
            (final(self)@, step_view(r)) == fail(old(self)@, e),
            final(self)@.valid(),
    {
        self.phase = Phase::Idle;
        Poll::Ready(Err(e))
    }

    fn finish(&mut self) -> (r: Step)
        requires
            old(self)@.valid(),
        ensures
            (final(self)@, step_view(r)) == finish(old(self)@),
            final(self)@.valid(),
    {
        self.phase = Phase::Idle;
        Poll::Ready(Ok(()))
    }

    fn restore(&mut self, result: Option<Error>) -> (r: Step)
        requires
            old(self)@.valid(),
        ensures
            (final(self)@, step_view(r)) == restore(old(self)@, result),
            final(self)@.valid(),
    {
        self.hs_result = result;
        self.phase = Phase::HsRestore;
        Poll::Do(Action::SetTimeout(self.old_timeout))
    }

    fn read_status(&mut self, k: u8) -> (r: Step)
        requires
            old(self)@.valid(),
        ensures
            (final(self)@, step_view(r)) == read_status(old(self)@, k),
            final(self)@.valid(),
    {
        let action = self.connection.read_response(0);
        self.reads = k;
        self.phase = Phase::HsRead;
        Poll::Do(action)
    }

    fn begin_handshake(&mut self) -> (r: Step)
        requires
            old(self)@.valid(),
        ensures
            (final(self)@, step_view(r)) == begin_handshake(old(self)@),
            final(self)@.valid(),
    {
        self.phase = Phase::HsGetTimeout;
        Poll::Do(Action::GetTimeout)
    }

    fn handshake_done(&mut self, result: Option<Error>) -> (r: Step)
        requires
            old(self)@.valid(),
        ensures
            (final(self)@, step_view(r)) == handshake_done(old(self)@, result),
            final(self)@.valid(),
    {
        if self.job == Job::Connect {
            match result {
                None => {
                    self.phase = Phase::SessionTimeout;
                    Poll::Do(Action::SetTimeout(SESSION_TIMEOUT_MS))
                },
                Some(e) => {
                    if self.attempt < CONNECT_ATTEMPTS {
                        self.attempt = self.attempt + 1;
                        self.phase = Phase::ConnectFlush;
                        Poll::Do(Action::Flush)
                    } else {
                        self.fail(Error::ConnectionFailed)
                    }
                },
            }
        } else {
            match result {
                None => self.begin_body(),
                Some(e) => self.fail(e),
            }
        }
    }

    fn begin_loader(&mut self) -> (r: Step)
        requires
            old(self)@.valid(),
        ensures
            (final(self)@, step_view(r)) == begin_loader(old(self)@),
            final(self)@.valid(),
    {
        let stub = copy_range(self.eflash_loader.as_slice(), 0, self.eflash_loader.len());
        assert(stub@ =~= self.eflash_loader@);
        self.stub = BinReader::new(stub);
        match BootRom::load_boot_header(&mut self.connection, &mut self.stub) {
            Ok(action) => {
                self.phase = Phase::BootHeader;
                Poll::Do(action)
            },
            Err(e) => self.fail(Error::IO),
        }
    }

    fn load_header(&mut self) -> (r: Step)
        requires
            old(self)@.valid(),
        ensures
            (final(self)@, step_view(r)) == load_header(old(self)@),
            final(self)@.valid(),
    {
        match BootRom::load_segment_header(&mut self.connection, &mut self.stub) {
            Ok((action, sent)) => {
                self.sent_header = sent;
                self.phase = Phase::SegmentHeader;
                Poll::Do(action)
            },
            Err(e) => self.fail(Error::IO),
        }
    }

    fn next_stub_chunk(&mut self) -> (r: Step)
        requires
            old(self)@.valid(),
        ensures
            (final(self)@, step_view(r)) == next_stub_chunk(old(self)@),
            final(self)@.valid(),
    {
        let (action, size) = BootRom::load_segment_data(&mut self.connection, &mut self.stub);
        match action {
            Some(action) => {
                self.phase = Phase::SegmentData;
                Poll::Do(action)
            },
            None => {
                assert(self.stub.remaining() =~= old(self).stub.remaining());
                let action = BootRom::check_image(&mut self.connection);
                self.phase = Phase::CheckImage;
                Poll::Do(action)
            },
        }
    }

    fn begin_body(&mut self) -> (r: Step)
        requires
            old(self)@.valid(),
        ensures
            (final(self)@, step_view(r)) == begin_body(old(self)@),
            final(self)@.valid(),
    {
        match self.job {
            Job::LoadSegments | Job::CheckSegments => {
                self.index = 0;
                self.next_segment()
            },
            Job::DumpFlash => self.next_dump(),
            _ => self.finish(),
        }
    }

    fn next_segment(&mut self) -> (r: Step)
        requires
            old(self)@.valid(),
        ensures
            (final(self)@, step_view(r)) == next_segment(old(self)@),
            final(self)@.valid(),
    {
        if self.index < self.segments.len() {
            let ghost segment = rom_views(self.segments@)[self.index as int];
            assert(segment == self.segments@[self.index as int]@);
            self.local_hash = sha256(self.segments[self.index].data.as_slice());
            let addr = self.segments[self.index].addr;
            let size = self.segments[self.index].size();
            if self.job == Job::CheckSegments {
                let action = EflashLoader::sha256_read(&mut self.connection, addr, size);
                self.phase = Phase::CheckHash;
                Poll::Do(action)
            } else if !self.force {
                let action = EflashLoader::sha256_read(&mut self.connection, addr, size);
                self.phase = Phase::HashBefore;
                Poll::Do(action)
            } else {
                self.begin_erase()
            }
        } else {
            self.finish()
        }
    }

    fn begin_erase(&mut self) -> (r: Step)
        requires
            old(self)@.valid(),
            old(self)@.index < old(self)@.segments.len(),
        ensures
            (final(self)@, step_view(r)) == begin_erase(old(self)@),
            final(self)@.valid(),
    {
        let ghost segment = rom_views(self.segments@)[self.index as int];
        assert(segment == self.segments@[self.index as int]@);
        assert(segment.addr + segment.data.len() <= u32::MAX);
        let addr = self.segments[self.index].addr;
        let len = self.segments[self.index].data.len();
        let data = copy_range(self.segments[self.index].data.as_slice(), 0, len);
        assert(data@ =~= segment.data);
        self.reader = BinReader::new(Vec::new());
        self.cur = addr;
        self.reader = BinReader::new(data);
        let action = EflashLoader::flash_erase(&mut self.connection, addr, addr + (len as u32));
        self.phase = Phase::Erase;
        Poll::Do(action)
    }

    fn next_chunk(&mut self) -> (r: Step)
        requires
            old(self)@.valid(),
            old(self)@.index < old(self)@.segments.len(),
        ensures
            (final(self)@, step_view(r)) == next_chunk(old(self)@),
            final(self)@.valid(),
    {
        let cur = self.cur;
        let (action, size) = EflashLoader::flash_program(
            &mut self.connection,
            cur,
            &mut self.reader,
        );
        match action {
            Some(action) => {
                self.cur = cur + size;
                self.phase = Phase::Program;
                Poll::Do(action)
            },
            None => {
                assert(self.reader.remaining() =~= old(self).reader.remaining());
                let ghost segment = rom_views(self.segments@)[self.index as int];
                assert(segment == self.segments@[self.index as int]@);
                let addr = self.segments[self.index].addr;
                let size = self.segments[self.index].size();
                let action = EflashLoader::sha256_read(&mut self.connection, addr, size);
                self.phase = Phase::HashAfter;
                Poll::Do(action)
            },
        }
    }

    fn segment_done(&mut self, notice: Option<Notice>) -> (r: Step)
        requires
            old(self)@.valid(),
            old(self)@.index < old(self)@.segments.len(),
        ensures
            (final(self)@, step_view(r)) == segment_done(old(self)@, notice),
            final(self)@.valid(),
    {
        assert(rom_views(self.segments@).len() == self.segments@.len());
        let count = self.segments.len();
        self.index = self.index + 1;
        match notice {
            Some(n) => {
                self.notices.push(n);
            },
            None => {},
        }
        self.next_segment()
    }

    fn next_dump(&mut self) -> (r: Step)
        requires
            old(self)@.valid(),
        ensures
            (final(self)@, step_view(r)) == next_dump(old(self)@),
            final(self)@.valid(),
    {
        if self.dump_cur < self.dump_end {
            let left = self.dump_end - self.dump_cur;
            let size = if left < DUMP_BLOCK_SIZE {
                left
            } else {
                DUMP_BLOCK_SIZE
            };
            let action = EflashLoader::flash_read(&mut self.connection, self.dump_cur, size);
            self.phase = Phase::DumpRead;
            Poll::Do(action)
        } else {
            self.finish()
        }
    }

    fn on_failure(&mut self, e: Error) -> (r: Step)
        requires
            old(self)@.valid(),
        ensures
            (final(self)@, step_view(r)) == on_failure(old(self)@, e),
            final(self)@.valid(),
    {
        match self.phase {
            Phase::Idle => Poll::Ready(Err(Error::IO)),
            Phase::HsGetTimeout | Phase::HsSetTimeout | Phase::HsRestore => self.handshake_done(
                Some(e),
            ),
            Phase::HsWrite | Phase::HsFlush | Phase::HsSleep => self.restore(Some(e)),
            Phase::HsRead => {
                if self.reads < HANDSHAKE_READS {
                    let k = self.reads + 1;
                    self.read_status(k)
                } else {
                    self.restore(Some(Error::Timeout))
                }
            },
            _ => self.fail(e),
        }
    }

    fn on_done(&mut self) -> (r: Step)
        requires
            old(self)@.valid(),
        ensures
            (final(self)@, step_view(r)) == on_done(old(self)@),
            final(self)@.valid(),
    {
        match self.phase {
            Phase::InitialBaud => {
                self.step = 0;
                self.phase = Phase::ResetToFlash;
                Poll::Do(reset_to_flash_step(0))
            },
            Phase::ResetToFlash => {
                if self.step < 7 {
                    self.step = self.step + 1;
                    Poll::Do(reset_to_flash_step(self.step))
                } else {
                    self.attempt = 1;
                    self.phase = Phase::ConnectFlush;
                    Poll::Do(Action::Flush)
                }
            },
            Phase::ConnectFlush => self.begin_handshake(),
            Phase::HsSetTimeout => {
                let speed = match self.connection.baud_rate() {
                    Some(speed) => speed,
                    None => crate::connection::DEFAULT_BAUDRATE,
                };
                assert(bytes_for_duration(speed as int, 5) <= speed) by (nonlinear_arith)
                    requires
                        speed >= 0,
                ;
                let len = self.connection.calc_duration_length(HANDSHAKE_BURST_MS);
                let mut data: Vec<u8> = Vec::new();
                push_fill(&mut data, 0x55, len);
                assert(data@ =~= burst(self@));
                self.phase = Phase::HsWrite;
                Poll::Do(Action::Write(data))
            },
            Phase::HsWrite => {
                self.phase = Phase::HsFlush;
                Poll::Do(Action::Flush)
            },
            Phase::HsFlush => {
                self.phase = Phase::HsSleep;
                Poll::Do(Action::Sleep(HANDSHAKE_SETTLE_MS))
            },
            Phase::HsSleep => self.read_status(1),
            Phase::HsRestore => {
                let result = self.hs_result;
                self.handshake_done(result)
            },
            Phase::SessionTimeout => {
                let action = BootRom::get_boot_info(&mut self.connection);
                self.phase = Phase::BootInfo;
                Poll::Do(action)
            },
            Phase::StubSleep => {
                let action = self.connection.set_baud(self.flash_speed);
                self.phase = Phase::FlashBaud;
                Poll::Do(action)
            },
            Phase::FlashBaud => self.begin_handshake(),
            Phase::DumpOutput => {
                let left = (u32::MAX - self.dump_cur) as usize;
                self.dump_cur = if self.pending > left {
                    u32::MAX
                } else {
                    self.dump_cur + (self.pending as u32)
                };
                self.next_dump()
            },
            Phase::Reset => {
                if self.step < 5 {
                    self.step = self.step + 1;
                    Poll::Do(reset_step(self.step))
                } else {
                    self.finish()
                }
            },
            _ => self.on_failure(Error::IO),
        }
    }

    fn on_reply(&mut self, reply: Vec<u8>) -> (r: Step)
        requires
            old(self)@.valid(),
        ensures
            (final(self)@, step_view(r)) == on_reply(old(self)@, reply@),
            final(self)@.valid(),
    {
        match self.phase {
            Phase::HsRead => self.restore(None),
            Phase::BootInfo => {
                match BootInfo::from_payload(reply.as_slice()) {
                    Ok(info) => {
                        self.boot_info = info;
                        self.finish()
                    },
                    Err(e) => self.fail(Error::ParseError),
                }
            },
            Phase::BootHeader => self.load_header(),
            Phase::SegmentHeader => {
                match BootRom::segment_header_echoed(self.sent_header.as_slice(), reply.as_slice()) {
                    Ok(echoed) => {
                        if !echoed {
                            self.notices.push(Notice::SegmentHeaderMismatch);
                        }
                        self.next_stub_chunk()
                    },
                    Err(e) => self.fail(Error::ParseError),
                }
            },
            Phase::SegmentData => self.next_stub_chunk(),
            Phase::CheckImage => {
                let action = BootRom::run_image(&mut self.connection);
                self.phase = Phase::RunImage;
                Poll::Do(action)
            },
            Phase::RunImage => {
                self.phase = Phase::StubSleep;
                Poll::Do(Action::Sleep(STUB_START_MS))
            },
            Phase::HashBefore | Phase::HashAfter | Phase::CheckHash => {
                if self.index < self.segments.len() {
                    self.on_hash(reply)
                } else {
                    self.fail(Error::IO)
                }
            },
            Phase::Erase | Phase::Program => {
                if self.index < self.segments.len() {
                    self.next_chunk()
                } else {
                    self.fail(Error::IO)
                }
            },
            Phase::DumpRead => {
                match EflashLoader::flash_data(reply.as_slice()) {
                    Ok(data) => {
                        self.pending = data.len();
                        self.phase = Phase::DumpOutput;
                        Poll::Do(Action::Output(data))
                    },
                    Err(e) => self.fail(Error::ParseError),
                }
            },
            _ => self.on_failure(Error::IO),
        }
    }

    fn on_hash(&mut self, reply: Vec<u8>) -> (r: Step)
        requires
            old(self)@.valid(),
            old(self)@.index < old(self)@.segments.len(),
        ensures
            (final(self)@, step_view(r)) == on_hash(
                old(self)@,
                Sha256ReadResp::spec_parse(reply@),
            ),
            final(self)@.valid(),
    {
        let ghost segment = rom_views(self.segments@)[self.index as int];
        assert(segment == self.segments@[self.index as int]@);
        let digest = match EflashLoader::sha256_digest(reply.as_slice()) {
            Ok(digest) => digest,
            Err(e) => {
                return self.fail(Error::ParseError);
            },
        };
        let addr = self.segments[self.index].addr;
        let size = self.segments[self.index].size();
        let same = same_bytes(digest.as_slice(), self.local_hash.as_slice());
        if self.phase == Phase::HashBefore {
            if same {
                self.segment_done(Some(Notice::Skipped { addr, size }))
            } else {
                self.begin_erase()
            }
        } else if same {
            if self.phase == Phase::CheckHash {
                self.segment_done(Some(Notice::HashMatch { addr }))
            } else {
                self.segment_done(None)
            }
        } else {
            self.segment_done(Some(Notice::HashMismatch { addr }))
        }
    }
}

/// While segments are written without force, a segment whose SHA-256 the
/// flash already holds is neither erased nor programmed: it is taken down
/// as skipped, and what the session asks for next is the hash of the flash
/// for the segment after it or, after the last segment, nothing more.
pub proof fn lemma_skip_by_hash(s: FlasherView, reply: Seq<u8>)
    requires
        s.valid(),
        s.job == Job::LoadSegments,
        !s.force,
        s.phase == Phase::HashBefore,
        s.index < s.segments.len(),
        Sha256ReadResp::spec_parse(reply) == Some(s.local_hash),
    ensures
        ({
            let (t, step) = on_reply(s, reply);
            let segment = s.segments[s.index as int];
            &&& t.index == s.index + 1
            &&& t.segments == s.segments
            &&& t.notices == s.notices.push(
                Notice::Skipped { addr: segment.addr, size: low32(segment.data.len() as int) },
            )
            &&& t.index < t.segments.len() ==> t.phase == Phase::HashBefore && step
                == StepView::Do(
                ActionView::Write(spec_frame(0x3d, hash_query(t.segments[t.index as int]))),
            )
            &&& t.index >= t.segments.len() ==> t.phase == Phase::Idle && step
                == StepView::Ready(Ok(()))
        }),
{
}

/// A segment whose SHA-256 the flash does not hold is erased, from its
/// flash offset up to its end, and so is every segment when force is set,
/// without the flash being asked for its hash.
pub proof fn lemma_write_otherwise(s: FlasherView, reply: Seq<u8>)
    requires
        s.job == Job::LoadSegments,
        s.index < s.segments.len(),
    ensures
        ({
            let segment = s.segments[s.index as int];
            let erase = StepView::Do(
                ActionView::Write(
                    spec_frame(
                        0x30,
                        le32(segment.addr) + le32((segment.addr + segment.data.len()) as u32),
                    ),
                ),
            );
            &&& s.phase == Phase::HashBefore && Sha256ReadResp::spec_parse(reply) is Some
                && Sha256ReadResp::spec_parse(reply) != Some(s.local_hash) ==> on_reply(s, reply).1
                == erase && on_reply(s, reply).0.phase == Phase::Erase
            &&& s.force ==> next_segment(s).1 == erase && next_segment(s).0.phase == Phase::Erase
        }),
{
}

/// While segments are written without force, the session turns to erasing
/// only when the flash has answered with a hash that is not that of the
/// segment at hand.
pub proof fn lemma_erase_only_after_mismatch(s: FlasherView, event: EventView)
    requires
        s.job == Job::LoadSegments,
        !s.force,
        s.phase != Phase::Erase,
        spec_step(s, event).0.phase == Phase::Erase,
    ensures
        s.phase == Phase::HashBefore,
        s.index < s.segments.len(),
        ({
            let answer = crate::connection::spec_step(s.conn, event).1;
            &&& answer is Ready
            &&& answer->Ready_0 is Ok
            &&& Sha256ReadResp::spec_parse(answer->Ready_0->Ok_0) is Some
            &&& Sha256ReadResp::spec_parse(answer->Ready_0->Ok_0) != Some(s.local_hash)
        }),
{
}

/// The session programs a segment only after it has erased it: it turns
/// to programming from erasing, or goes on programming.
pub proof fn lemma_program_only_after_erase(s: FlasherView, event: EventView)
    requires
        spec_step(s, event).0.phase == Phase::Program,
    ensures
        s.phase == Phase::Erase || s.phase == Phase::Program,
{
}

/// While connecting, a handshake that failed is followed by another as long
/// as fewer than ten were made; the tenth that fails ends the operation
/// with `Error::ConnectionFailed`.
pub proof fn lemma_connect_attempts(s: FlasherView, e: Error)
    requires
        s.job == Job::Connect,
        1 <= s.attempt <= CONNECT_ATTEMPTS,
    ensures
        s.attempt < CONNECT_ATTEMPTS ==> handshake_done(s, Some(e)).1 == StepView::Do(
            ActionView::Flush,
        ) && handshake_done(s, Some(e)).0.attempt == s.attempt + 1,
        s.attempt == CONNECT_ATTEMPTS ==> handshake_done(s, Some(e)) == fail(
            s,
            Error::ConnectionFailed,
        ),
{
}

} // verus!
