//! The commands of the boot ROM, which answers after the reset into
//! download mode and until it is told to run the image it was sent.

use vstd::pervasive::unreached;
use vstd::prelude::*;
use crate::bytes::same_bytes;
use crate::connection::{Connection, ConnectionView, Stage};
use crate::error::Error;
use crate::image::BinReader;
use crate::protocol::{
    spec_frame, spec_parse_payload, BootInfoReq, CheckImage, Command, LoadBootHeader,
    LoadSegmentData, LoadSegmentHeader, LoadSegmentHeaderReq, Response, RunImage, CHUNK_LEN,
    LOAD_BOOT_HEADER_LEN, LOAD_SEGMENT_HEADER_LEN, MAX_BODY_LEN,
};
use crate::transport::{Action, ActionView};

verus! {

/// A connection on which the exchange of a command has begun: the frame is
/// being sent, and after `"OK"` two bytes of length and a payload are
/// expected if `framed`, nothing if not.
pub open spec fn sending(c: ConnectionView, framed: bool) -> ConnectionView {
    ConnectionView {
        stage: Stage::Sending,
        want: if framed {
            2usize
        } else {
            0usize
        },
        framed,
        ..c
    }
}

/// Begins the exchange of a command whose body a frame can carry.
pub fn begin<C: Command>(connection: &mut Connection, command: &C) -> (action: Action)
    requires
        C::spec_body(command@).len() <= MAX_BODY_LEN,
    ensures
        action@ == ActionView::Write(spec_frame(C::spec_id(), C::spec_body(command@))),
        final(connection)@ == sending(old(connection)@, C::Response::has_payload()),
{
    match connection.command(command) {
        Ok(action) => action,
        Err(e) => unreached(),
    }
}

/// The first `n` bytes of `s`, or all of it if it is shorter.
pub open spec fn chunk_of(s: Seq<u8>, n: int) -> Seq<u8> {
    if n <= s.len() {
        s.subrange(0, n)
    } else {
        s
    }
}

/// What is left of `s` after its first `n` bytes.
pub open spec fn rest_of(s: Seq<u8>, n: int) -> Seq<u8> {
    if n <= s.len() {
        s.subrange(n, s.len() as int)
    } else {
        Seq::empty()
    }
}

/// The commands of the boot ROM.
pub struct BootRom {}

impl BootRom {
    /// Begins `RunImage`, which hands control to the image that was sent.
    pub fn run_image(connection: &mut Connection) -> (action: Action)
        ensures
            action@ == ActionView::Write(spec_frame(0x1a, Seq::empty())),
            final(connection)@ == sending(old(connection)@, false),
    {
        begin(connection, &RunImage {  })
    }

    /// Begins `CheckImage`.
    pub fn check_image(connection: &mut Connection) -> (action: Action)
        ensures
            action@ == ActionView::Write(spec_frame(0x19, Seq::empty())),
            final(connection)@ == sending(old(connection)@, false),
    {
        begin(connection, &CheckImage {  })
    }

    /// Reads the 176 bytes of the boot header and begins `LoadBootHeader`
    /// with them. Fails with `Error::IO`, beginning nothing, exactly when
    /// fewer bytes are left to read.
    pub fn load_boot_header(connection: &mut Connection, reader: &mut BinReader) -> (r: Result<
        Action,
        Error,
    >)
        ensures
            final(reader).remaining() == rest_of(old(reader).remaining(), 176),
            old(reader).remaining().len() >= 176 ==> r is Ok && r->Ok_0@ == ActionView::Write(
                spec_frame(0x11, old(reader).remaining().subrange(0, 176)),
            ) && final(connection)@ == sending(old(connection)@, false),
            old(reader).remaining().len() < 176 ==> r is Err && r->Err_0 == Error::IO && final(connection)@ == old(connection)@,
    {
        let boot_header = match reader.read_exact(LOAD_BOOT_HEADER_LEN) {
            Ok(bytes) => bytes,
            Err(e) => {
                return Err(Error::IO);
            },
        };
        Ok(begin(connection, &LoadBootHeader { boot_header }))
    }

    /// Reads the 16 bytes of the segment header and begins
    /// `LoadSegmentHeaderReq` with them; gives the header too, to hold the
    /// echo against. Fails with `Error::IO`, beginning nothing, exactly
    /// when fewer bytes are left to read.
    pub fn load_segment_header(connection: &mut Connection, reader: &mut BinReader) -> (r: Result<
        (Action, Vec<u8>),
        Error,
    >)
        ensures
            final(reader).remaining() == rest_of(old(reader).remaining(), 16),
            old(reader).remaining().len() >= 16 ==> r is Ok && r->Ok_0.0@ == ActionView::Write(
                spec_frame(0x17, old(reader).remaining().subrange(0, 16)),
            ) && r->Ok_0.1@ == old(reader).remaining().subrange(0, 16) && final(connection)@
                == sending(old(connection)@, true),
            old(reader).remaining().len() < 16 ==> r is Err && r->Err_0 == Error::IO && final(connection)@ == old(connection)@,
    {
        let segment_header = match reader.read_exact(LOAD_SEGMENT_HEADER_LEN) {
            Ok(bytes) => bytes,
            Err(e) => {
                return Err(Error::IO);
            },
        };
        let sent = segment_header.clone();
        assert(sent@ == segment_header@);
        Ok((begin(connection, &LoadSegmentHeaderReq { segment_header }), sent))
    }

    /// Whether the device echoed the segment header it was sent. Fails with
    /// `Error::ParseError` exactly when the reply holds fewer bytes than it
    /// declares.
    pub fn segment_header_echoed(sent: &[u8], reply: &[u8]) -> (r: Result<bool, Error>)
        ensures
            match spec_parse_payload(reply@) {
                Some(echo) => r == Ok::<bool, Error>(echo.data == sent@),
                None => r == Err::<bool, Error>(Error::ParseError),
            },
    {
        match LoadSegmentHeader::from_payload(reply) {
            Ok(echo) => Ok(same_bytes(echo.data.as_slice(), sent)),
            Err(e) => Err(Error::ParseError),
        }
    }

    /// Reads up to 4000 bytes of the segment and begins `LoadSegmentData`
    /// with them; gives their number. With nothing left to read it begins
    /// nothing and gives 0.
    pub fn load_segment_data(connection: &mut Connection, reader: &mut BinReader) -> (r: (
        Option<Action>,
        u32,
    ))
        ensures
            r.1 == chunk_of(old(reader).remaining(), 4000).len(),
            final(reader).remaining() == rest_of(old(reader).remaining(), 4000),
            old(reader).remaining().len() > 0 ==> r.0 is Some && r.0->Some_0@
                == ActionView::Write(spec_frame(0x18, chunk_of(old(reader).remaining(), 4000)))
                && final(connection)@ == sending(old(connection)@, false),
            old(reader).remaining().len() == 0 ==> r.0 is None && final(connection)@ == old(connection)@,
    {
        let segment_data = reader.read(CHUNK_LEN);
        assert(segment_data@ =~= chunk_of(old(reader).remaining(), 4000));
        assert(reader.remaining() =~= rest_of(old(reader).remaining(), 4000));
        let size = segment_data.len();
        if size == 0 {
            return (None, 0);
        }
        (Some(begin(connection, &LoadSegmentData { segment_data })), size as u32)
    }

    /// Begins `BootInfoReq`.
    pub fn get_boot_info(connection: &mut Connection) -> (action: Action)
        ensures
            action@ == ActionView::Write(spec_frame(0x10, Seq::empty())),
            final(connection)@ == sending(old(connection)@, true),
    {
        begin(connection, &BootInfoReq {  })
    }
}

} // verus!
