//! The commands of the flash loader stub, which answers once the boot ROM
//! has run it and the baud rate has been raised.

use vstd::prelude::*;
use crate::bootrom::{begin, chunk_of, rest_of, sending};
use crate::bytes::le32;
use crate::connection::Connection;
use crate::error::Error;
use crate::image::BinReader;
use crate::protocol::{
    spec_frame, spec_parse_payload, FlashErase, FlashProgram, FlashRead, FlashReadResp, Response,
    Sha256Read, Sha256ReadResp, CHUNK_LEN,
};
use crate::transport::{Action, ActionView};

verus! {

/// The commands of the flash loader stub.
pub struct EflashLoader {}

impl EflashLoader {
    /// Begins `Sha256Read` of `len` bytes of flash from `addr`.
    pub fn sha256_read(connection: &mut Connection, addr: u32, len: u32) -> (action: Action)
        ensures
            action@ == ActionView::Write(spec_frame(0x3d, le32(addr) + le32(len))),
            final(connection)@ == sending(old(connection)@, true),
    {
        begin(connection, &Sha256Read { addr, len })
    }

    /// The digest in the reply to `Sha256Read`. Fails with
    /// `Error::ParseError` exactly when the reply does not begin with
    /// `20 00` or holds fewer than 32 bytes after that.
    pub fn sha256_digest(reply: &[u8]) -> (r: Result<[u8; 32], Error>)
        ensures
            match Sha256ReadResp::spec_parse(reply@) {
                Some(digest) => r is Ok && r->Ok_0@ == digest,
                None => r is Err && r->Err_0 == Error::ParseError,
            },
    {
        match Sha256ReadResp::from_payload(reply) {
            Ok(resp) => Ok(resp.digest),
            Err(e) => Err(Error::ParseError),
        }
    }

    /// Begins `FlashRead` of `size` bytes of flash from `addr`.
    pub fn flash_read(connection: &mut Connection, addr: u32, size: u32) -> (action: Action)
        ensures
            action@ == ActionView::Write(spec_frame(0x32, le32(addr) + le32(size))),
            final(connection)@ == sending(old(connection)@, true),
    {
        begin(connection, &FlashRead { addr, size })
    }

    /// The data in the reply to `FlashRead`. Fails with `Error::ParseError`
    /// exactly when the reply holds fewer bytes than it declares.
    pub fn flash_data(reply: &[u8]) -> (r: Result<Vec<u8>, Error>)
        ensures
            match spec_parse_payload(reply@) {
                Some(v) => r is Ok && r->Ok_0@ == v.data,
                None => r is Err && r->Err_0 == Error::ParseError,
            },
    {
        match FlashReadResp::from_payload(reply) {
            Ok(resp) => Ok(resp.data),
            Err(e) => Err(Error::ParseError),
        }
    }

    /// Reads up to 4000 bytes and begins `FlashProgram` with them at
    /// `addr`; gives their number. With nothing left to read it begins
    /// nothing and gives 0.
    pub fn flash_program(connection: &mut Connection, addr: u32, reader: &mut BinReader) -> (r:
        (Option<Action>, u32))
        ensures
            r.1 == chunk_of(old(reader).remaining(), 4000).len(),
            final(reader).remaining() == rest_of(old(reader).remaining(), 4000),
            old(reader).remaining().len() > 0 ==> r.0 is Some && r.0->Some_0@
                == ActionView::Write(
                spec_frame(0x31, le32(addr) + chunk_of(old(reader).remaining(), 4000)),
            ) && final(connection)@ == sending(old(connection)@, false),
            old(reader).remaining().len() == 0 ==> r.0 is None && final(connection)@ == old(connection)@,
    {
        let data = reader.read(CHUNK_LEN);
        assert(data@ =~= chunk_of(old(reader).remaining(), 4000));
        assert(reader.remaining() =~= rest_of(old(reader).remaining(), 4000));
        let size = data.len();
        if size == 0 {
            return (None, 0);
        }
        (Some(begin(connection, &FlashProgram { addr, data })), size as u32)
    }

    /// Begins `FlashErase` of the flash from `start` up to `end`.
    pub fn flash_erase(connection: &mut Connection, start: u32, end: u32) -> (action: Action)
        ensures
            action@ == ActionView::Write(spec_frame(0x30, le32(start) + le32(end))),
            final(connection)@ == sending(old(connection)@, false),
    {
        begin(connection, &FlashErase { start, end })
    }
}

} // verus!
