//! The framed connection: one command sent, one response read, at a time.
//!
//! A `Connection` remembers the baud rate and how far the exchange in
//! flight has come. It says which bytes to write and how many to read; the
//! owner of the port does so and reports back through `step`.

use vstd::prelude::*;
use crate::bytes::{le16_at, push_all};
use crate::endian::read_u16_le;
use crate::error::{Error, RomError};
use crate::protocol::{spec_frame, to_cmd, Command, Response, MAX_BODY_LEN};
use crate::transport::{Action, ActionView, Event, EventView, Poll, PollView};

verus! {

/// Baud rate that is assumed until one is set.
pub const DEFAULT_BAUDRATE: usize = 115200;

/// Milliseconds between two edges on the reset lines.
pub const RESET_DELAY_MS: u64 = 50;

/// How far an exchange has come.
#[derive(Clone, Copy, Debug, PartialEq, Eq, Structural)]
pub enum Stage {
    /// No exchange is in flight.
    Idle,
    /// The frame is being written.
    Sending,
    /// The frame is being flushed.
    Flushing,
    /// The two status bytes are being read.
    Status,
    /// The two bytes of the error code are being read.
    Code,
    /// The bytes that follow `"OK"` are being read.
    Head,
    /// The payload, of the length that the head declared, is being read.
    Body,
}

/// A connection to the device.
pub struct Connection {
    baud_rate: Option<usize>,
    stage: Stage,
    /// Number of bytes to read after `"OK"`.
    want: usize,
    /// Whether those bytes declare the length of a payload that follows.
    framed: bool,
    /// The head, once read.
    head: Vec<u8>,
}

/// What a `Connection` stands for.
pub struct ConnectionView {
    pub baud_rate: Option<usize>,
    pub stage: Stage,
    pub want: usize,
    pub framed: bool,
    pub head: Seq<u8>,
}

impl View for Connection {
    type V = ConnectionView;

    closed spec fn view(&self) -> ConnectionView {
        ConnectionView {
            baud_rate: self.baud_rate,
            stage: self.stage,
            want: self.want,
            framed: self.framed,
            head: self.head@,
        }
    }
}

/// The sequence that reboots the device into its firmware: RTS low, DTR
/// high, DTR low, 50 ms after each.
pub open spec fn reset_sequence() -> Seq<ActionView> {
    seq![
        ActionView::SetRts(false),
        ActionView::Sleep(50),
        ActionView::SetDtr(true),
        ActionView::Sleep(50),
        ActionView::SetDtr(false),
        ActionView::Sleep(50),
    ]
}

/// The sequence that reboots the device into the download mode of its boot
/// ROM: RTS high, DTR high, DTR low, RTS low, 50 ms after each.
pub open spec fn reset_to_flash_sequence() -> Seq<ActionView> {
    seq![
        ActionView::SetRts(true),
        ActionView::Sleep(50),
        ActionView::SetDtr(true),
        ActionView::Sleep(50),
        ActionView::SetDtr(false),
        ActionView::Sleep(50),
        ActionView::SetRts(false),
        ActionView::Sleep(50),
    ]
}

/// Step `i` of the sequence that reboots the device into its firmware.
pub fn reset_step(i: usize) -> (action: Action)
    requires
        i < 6,
    ensures
        action@ == reset_sequence()[i as int],
{
    if i == 0 {
        Action::SetRts(false)
    } else if i == 2 {
        Action::SetDtr(true)
    } else if i == 4 {
        Action::SetDtr(false)
    } else {
        Action::Sleep(RESET_DELAY_MS)
    }
}

/// Step `i` of the sequence that reboots the device into the download mode
/// of its boot ROM.
pub fn reset_to_flash_step(i: usize) -> (action: Action)
    requires
        i < 8,
    ensures
        action@ == reset_to_flash_sequence()[i as int],
{
    if i == 0 {
        Action::SetRts(true)
    } else if i == 2 {
        Action::SetDtr(true)
    } else if i == 4 {
        Action::SetDtr(false)
    } else if i == 6 {
        Action::SetRts(false)
    } else {
        Action::Sleep(RESET_DELAY_MS)
    }
}

/// What the actions stand for, one by one.
pub open spec fn action_views(actions: Seq<Action>) -> Seq<ActionView> {
    actions.map_values(|a: Action| a@)
}

/// The number of `0x55` bytes that take `duration_ms` milliseconds at
/// `speed` bits per second: `speed / 10 / 1000 * duration_ms`.
pub open spec fn bytes_for_duration(speed: int, duration_ms: int) -> int {
    speed / 10 / 1000 * duration_ms
}

/// What an exchange does when the bytes that follow `"OK"` have been read:
/// it asks for the payload that they declare, or it is done.
pub open spec fn after_head(c: ConnectionView, head: Seq<u8>) -> (ConnectionView, PollView<
    Result<Seq<u8>, Error>,
>) {
    if c.framed {
        (
            ConnectionView { stage: Stage::Body, head, ..c },
            PollView::Do(ActionView::Read(le16_at(head, 0) as usize)),
        )
    } else {
        (ConnectionView { stage: Stage::Idle, ..c }, PollView::Ready(Ok(head)))
    }
}

/// What an exchange does when the two status bytes have been read: after
/// `"OK"` it reads on or is done with nothing, after `"FL"` it reads the
/// error code, after anything else it fails with `Error::RespError`.
pub open spec fn after_status(c: ConnectionView, status: Seq<u8>) -> (ConnectionView, PollView<
    Result<Seq<u8>, Error>,
>) {
    if status[0] == 0x4f && status[1] == 0x4b {
        if c.want > 0 {
            (
                ConnectionView { stage: Stage::Head, ..c },
                PollView::Do(ActionView::Read(c.want)),
            )
        } else {
            (ConnectionView { stage: Stage::Idle, ..c }, PollView::Ready(Ok(Seq::empty())))
        }
    } else if status[0] == 0x46 && status[1] == 0x4c {
        (ConnectionView { stage: Stage::Code, ..c }, PollView::Do(ActionView::Read(2)))
    } else {
        (ConnectionView { stage: Stage::Idle, ..c }, PollView::Ready(Err(Error::RespError)))
    }
}

/// The number of bytes that the read in flight asked for.
pub open spec fn asked(c: ConnectionView) -> int {
    match c.stage {
        Stage::Status | Stage::Code => 2,
        Stage::Head => c.want as int,
        Stage::Body => le16_at(c.head, 0),
        _ => 0,
    }
}

/// The step of an exchange: what the connection is after an event, and what
/// it wants next. A failure ends the exchange with its error; so does,
/// with `Error::IO`, an event that does not answer the action in flight, or
/// a read of another length than asked for.
pub open spec fn spec_step(c: ConnectionView, event: EventView) -> (ConnectionView, PollView<
    Result<Seq<u8>, Error>,
>) {
    let idle = ConnectionView { stage: Stage::Idle, ..c };
    match (c.stage, event) {
        (Stage::Idle, _) => (idle, PollView::Ready(Err(Error::IO))),
        (_, EventView::Failed(e)) => (idle, PollView::Ready(Err(e))),
        (Stage::Sending, EventView::Done) => (
            ConnectionView { stage: Stage::Flushing, ..c },
            PollView::Do(ActionView::Flush),
        ),
        (Stage::Flushing, EventView::Done) => (
            ConnectionView { stage: Stage::Status, ..c },
            PollView::Do(ActionView::Read(2)),
        ),
        (Stage::Status, EventView::Data(d)) => if d.len() == 2 {
            after_status(c, d)
        } else {
            (idle, PollView::Ready(Err(Error::IO)))
        },
        (Stage::Code, EventView::Data(d)) => if d.len() == 2 {
            (
                idle,
                PollView::Ready(Err(Error::RomError(RomError::of_code(le16_at(d, 0) as u16)))),
            )
        } else {
            (idle, PollView::Ready(Err(Error::IO)))
        },
        (Stage::Head, EventView::Data(d)) => if d.len() == c.want {
            after_head(c, d)
        } else {
            (idle, PollView::Ready(Err(Error::IO)))
        },
        (Stage::Body, EventView::Data(d)) => if d.len() == le16_at(c.head, 0) {
            (idle, PollView::Ready(Ok(c.head + d)))
        } else {
            (idle, PollView::Ready(Err(Error::IO)))
        },
        _ => (idle, PollView::Ready(Err(Error::IO))),
    }
}

/// What the result of an exchange stands for.
pub open spec fn reply_view(poll: Poll<Result<Vec<u8>, Error>>) -> PollView<
    Result<Seq<u8>, Error>,
> {
    match poll {
        Poll::Do(action) => PollView::Do(action@),
        Poll::Ready(Ok(bytes)) => PollView::Ready(Ok(bytes@)),
        Poll::Ready(Err(e)) => PollView::Ready(Err(e)),
    }
}

/// In an exchange that carries a payload, `"OK"` is followed by two bytes
/// that declare a length. The connection asks for those two bytes, then for
/// exactly as many bytes as they declare, and with exactly that many it is
/// done and idle again. Its result is the two bytes followed by the
/// payload.
pub proof fn lemma_payload_consumed(c: ConnectionView, head: Seq<u8>, payload: Seq<u8>)
    requires
        c.stage == Stage::Status,
        c.framed,
        c.want == 2,
        head.len() == 2,
    ensures
        ({
            let declared = le16_at(head, 0);
            let (heading, first) = spec_step(c, EventView::Data(seq![0x4fu8, 0x4bu8]));
            let (reading, second) = spec_step(heading, EventView::Data(head));
            let (done, third) = spec_step(reading, EventView::Data(payload));
            &&& 0 <= declared <= MAX_BODY_LEN
            &&& first == PollView::<Result<Seq<u8>, Error>>::Do(ActionView::Read(2))
            &&& second == PollView::<Result<Seq<u8>, Error>>::Do(
                ActionView::Read(declared as usize),
            )
            &&& asked(reading) == declared
            &&& done.stage == Stage::Idle
            &&& payload.len() == declared ==> third == PollView::Ready(
                Ok::<Seq<u8>, Error>(head + payload),
            )
            &&& payload.len() != declared ==> third == PollView::Ready(
                Err::<Seq<u8>, Error>(Error::IO),
            )
        }),
{
}

impl Connection {
    #[verifier::type_invariant]
    spec fn wf(self) -> bool {
        &&& self.framed ==> self.want == 2
        &&& self.stage == Stage::Body ==> self.head@.len() == 2
    }

    /// A connection on which nothing is in flight and no baud rate has been
    /// set.
    pub fn new() -> (c: Connection)
        ensures
            c@ == (ConnectionView {
                baud_rate: None,
                stage: Stage::Idle,
                want: 0,
                framed: false,
                head: Seq::empty(),
            }),
    {
        Connection { baud_rate: None, stage: Stage::Idle, want: 0, framed: false, head: Vec::new() }
    }

    /// The baud rate last set, if any.
    pub fn baud_rate(&self) -> (speed: Option<usize>)
        ensures
            speed == self@.baud_rate,
    {
        self.baud_rate
    }

    /// Whether no exchange is in flight.
    pub fn is_idle(&self) -> (idle: bool)
        ensures
            idle == (self@.stage == Stage::Idle),
    {
        self.stage == Stage::Idle
    }

    /// The sequence that reboots the device into its firmware.
    pub fn reset(&self) -> (actions: Vec<Action>)
        ensures
            action_views(actions@) == reset_sequence(),
    {
        let mut actions: Vec<Action> = Vec::new();
        let mut i: usize = 0;
        while i < 6
            invariant
                i <= 6,
                action_views(actions@) == reset_sequence().subrange(0, i as int),
            decreases 6 - i,
        {
            let ghost before = actions@;
            let action = reset_step(i);
            actions.push(action);
            i += 1;
            assert(action_views(actions@) =~= action_views(before).push(action@));
            assert(action_views(actions@) =~= reset_sequence().subrange(0, i as int));
        }
        assert(reset_sequence().subrange(0, 6) =~= reset_sequence());
        actions
    }

    /// The sequence that reboots the device into the download mode of its
    /// boot ROM.
    pub fn reset_to_flash(&self) -> (actions: Vec<Action>)
        ensures
            action_views(actions@) == reset_to_flash_sequence(),
    {
        let mut actions: Vec<Action> = Vec::new();
        let mut i: usize = 0;
        while i < 8
            invariant
                i <= 8,
                action_views(actions@) == reset_to_flash_sequence().subrange(0, i as int),
            decreases 8 - i,
        {
            let ghost before = actions@;
            let action = reset_to_flash_step(i);
            actions.push(action);
            i += 1;
            assert(action_views(actions@) =~= action_views(before).push(action@));
            assert(action_views(actions@) =~= reset_to_flash_sequence().subrange(0, i as int));
        }
        assert(reset_to_flash_sequence().subrange(0, 8) =~= reset_to_flash_sequence());
        actions
    }

    /// The action that sets the read timeout.
    pub fn set_timeout(&self, timeout_ms: u64) -> (action: Action)
        ensures
            action@ == ActionView::SetTimeout(timeout_ms),
    {
        Action::SetTimeout(timeout_ms)
    }

    /// Records the new baud rate, which `calc_duration_length` goes by from
    /// now on, and gives the action that sets it on the port.
    pub fn set_baud(&mut self, speed: usize) -> (action: Action)
        ensures
            action@ == ActionView::SetBaud(speed),
            final(self)@ == (ConnectionView { baud_rate: Some(speed), ..old(self)@ }),
    {
        proof {
            use_type_invariant(&*self);
        }
        self.baud_rate = Some(speed);
        Action::SetBaud(speed)
    }

    /// The baud rate that durations are counted in: the one last set, or
    /// 115200.
    pub open spec fn spec_speed(c: ConnectionView) -> usize {
        match c.baud_rate {
            Some(speed) => speed,
            None => DEFAULT_BAUDRATE,
        }
    }

    /// The number of `0x55` bytes that take `duration_ms` milliseconds at
    /// the current baud rate.
    pub fn calc_duration_length(&self, duration_ms: u64) -> (len: usize)
        requires
            bytes_for_duration(Self::spec_speed(self@) as int, duration_ms as int) <= usize::MAX,
        ensures
            len == bytes_for_duration(Self::spec_speed(self@) as int, duration_ms as int),
    {
        let speed = match self.baud_rate {
            Some(speed) => speed,
            None => DEFAULT_BAUDRATE,
        };
        let per_ms = speed / 10 / 1000;
        if per_ms == 0 {
            assert(bytes_for_duration(speed as int, duration_ms as int) == 0) by (nonlinear_arith)
                requires
                    speed / 10 / 1000 == 0,
            ;
            return 0;
        }
        assert(duration_ms <= usize::MAX) by (nonlinear_arith)
            requires
                per_ms >= 1,
                per_ms * duration_ms <= usize::MAX,
                duration_ms >= 0,
        ;
        per_ms * (duration_ms as usize)
    }

    /// The action that writes `buf`.
    pub fn write_all(&self, buf: &[u8]) -> (action: Action)
        ensures
            action@ == ActionView::Write(buf@),
    {
        let mut bytes: Vec<u8> = Vec::new();
        push_all(&mut bytes, buf);
        Action::Write(bytes)
    }

    /// The action that flushes what was written.
    pub fn flush(&self) -> (action: Action)
        ensures
            action@ == ActionView::Flush,
    {
        Action::Flush
    }

    /// Begins reading a response that carries `len` bytes after `"OK"`:
    /// asks for the two status bytes.
    pub fn read_response(&mut self, len: usize) -> (action: Action)
        ensures
            action@ == ActionView::Read(2),
            final(self)@ == (ConnectionView {
                stage: Stage::Status,
                want: len,
                framed: false,
                ..old(self)@
            }),
    {
        proof {
            use_type_invariant(&*self);
        }
        self.framed = false;
        self.want = len;
        self.stage = Stage::Status;
        Action::Read(2)
    }

    /// Begins an exchange: asks for the frame of `command` to be written.
    /// Fails with `Error::OverSizedPacket`, beginning nothing, exactly when
    /// the body of the command is longer than 65535 bytes.
    pub fn command<C: Command>(&mut self, command: &C) -> (r: Result<Action, Error>)
        ensures
            C::spec_body(command@).len() <= MAX_BODY_LEN ==> r is Ok && r->Ok_0@
                == ActionView::Write(spec_frame(C::spec_id(), C::spec_body(command@)))
                && final(self)@ == (ConnectionView {
                stage: Stage::Sending,
                want: if C::Response::has_payload() {
                    2usize
                } else {
                    0usize
                },
                framed: C::Response::has_payload(),
                ..old(self)@
            }),
            C::spec_body(command@).len() > MAX_BODY_LEN ==> r is Err && r->Err_0
                == Error::OverSizedPacket && final(self)@ == old(self)@,
    {
        let frame = match to_cmd(command) {
            Ok(frame) => frame,
            Err(e) => {
                return Err(Error::OverSizedPacket);
            },
        };
        let framed = C::Response::no_response_payload().is_none();
        proof {
            use_type_invariant(&*self);
        }
        self.framed = false;
        self.want = if framed {
            2
        } else {
            0
        };
        self.framed = framed;
        self.stage = Stage::Sending;
        Ok(Action::Write(frame))
    }

    /// Takes the event that answers the action last asked for, and says
    /// what the exchange wants next: another action, or nothing more, with
    /// the bytes that followed `"OK"` or the error that ended it.
    pub fn step(&mut self, event: Event) -> (poll: Poll<Result<Vec<u8>, Error>>)
        ensures
            (final(self)@, reply_view(poll)) == spec_step(old(self)@, event@),
    {
        proof {
            use_type_invariant(&*self);
        }
        let stage = self.stage;
        self.stage = Stage::Idle;
        if stage == Stage::Idle {
            return Poll::Ready(Err(Error::IO));
        }
        match event {
            Event::Failed(e) => Poll::Ready(Err(e)),
            Event::Done => {
                if stage == Stage::Sending {
                    self.stage = Stage::Flushing;
                    Poll::Do(Action::Flush)
                } else if stage == Stage::Flushing {
                    self.stage = Stage::Status;
                    Poll::Do(Action::Read(2))
                } else {
                    Poll::Ready(Err(Error::IO))
                }
            },
            Event::Timeout(ms) => Poll::Ready(Err(Error::IO)),
            Event::Data(d) => {
                if stage == Stage::Status {
                    if d.len() != 2 {
                        return Poll::Ready(Err(Error::IO));
                    }
                    if d[0] == 0x4f && d[1] == 0x4b {
                        if self.want > 0 {
                            self.stage = Stage::Head;
                            Poll::Do(Action::Read(self.want))
                        } else {
                            Poll::Ready(Ok(Vec::new()))
                        }
                    } else if d[0] == 0x46 && d[1] == 0x4c {
                        self.stage = Stage::Code;
                        Poll::Do(Action::Read(2))
                    } else {
                        Poll::Ready(Err(Error::RespError))
                    }
                } else if stage == Stage::Code {
                    if d.len() != 2 {
                        return Poll::Ready(Err(Error::IO));
                    }
                    let code = read_u16_le(d.as_slice());
                    Poll::Ready(Err(Error::RomError(RomError::from(code))))
                } else if stage == Stage::Head {
                    if d.len() != self.want {
                        return Poll::Ready(Err(Error::IO));
                    }
                    if self.framed {
                        let declared = read_u16_le(d.as_slice());
                        self.head = d;
                        self.stage = Stage::Body;
                        Poll::Do(Action::Read(declared as usize))
                    } else {
                        Poll::Ready(Ok(d))
                    }
                } else if stage == Stage::Body {
                    let declared = read_u16_le(self.head.as_slice());
                    if d.len() != declared as usize {
                        return Poll::Ready(Err(Error::IO));
                    }
                    let mut reply: Vec<u8> = Vec::new();
                    push_all(&mut reply, self.head.as_slice());
                    push_all(&mut reply, d.as_slice());
                    Poll::Ready(Ok(reply))
                } else {
                    Poll::Ready(Err(Error::IO))
                }
            },
        }
    }
}

} // verus!
