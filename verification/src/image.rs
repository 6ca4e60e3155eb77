//! Building what is written to flash: boot headers and partition tables;
//! and reading an image piece by piece.

use vstd::prelude::*;
use crate::bytes::copy_range;
use crate::error::Error;

pub mod bootheader;
pub mod partition;

pub use bootheader::{BootCfg, BootHeaderCfg, BootHeaderCfgFile, ClkCfg, FlashCfg};
pub use partition::{Entry, PartitionCfg, Table};

verus! {

/// Reads an image from its start to its end, a piece at a time.
pub struct BinReader {
    reader: Vec<u8>,
    pos: usize,
}

impl BinReader {
    #[verifier::type_invariant]
    spec fn wf(self) -> bool {
        self.pos <= self.reader@.len()
    }

    /// The bytes that have not been read yet.
    pub closed spec fn remaining(&self) -> Seq<u8> {
        self.reader@.subrange(self.pos as int, self.reader@.len() as int)
    }

    /// The number of bytes that have been read.
    pub closed spec fn spec_position(&self) -> int {
        self.pos as int
    }

    /// A reader at the start of `reader`.
    pub fn new(reader: Vec<u8>) -> (r: BinReader)
        ensures
            r.remaining() == reader@,
            r.spec_position() == 0,
    {
        assert(reader@.subrange(0, reader@.len() as int) =~= reader@);
        BinReader { reader, pos: 0 }
    }

    /// The number of bytes that have not been read yet.
    pub fn len(&self) -> (n: usize)
        ensures
            n == self.remaining().len(),
    {
        proof {
            use_type_invariant(self);
        }
        self.reader.len() - self.pos
    }

    /// The next `max` bytes, or all that are left if they are fewer.
    pub fn read(&mut self, max: usize) -> (chunk: Vec<u8>)
        ensures
            chunk@.len() == if max <= old(self).remaining().len() {
                max as int
            } else {
                old(self).remaining().len() as int
            },
            chunk@ == old(self).remaining().subrange(0, chunk@.len() as int),
            final(self).remaining() == old(self).remaining().subrange(
                chunk@.len() as int,
                old(self).remaining().len() as int,
            ),
            final(self).spec_position() == old(self).spec_position() + chunk@.len(),
    {
        proof {
            use_type_invariant(&*self);
        }
        let left = self.reader.len() - self.pos;
        let n = if max <= left {
            max
        } else {
            left
        };
        let chunk = copy_range(self.reader.as_slice(), self.pos, self.pos + n);
        self.pos = self.pos + n;
        assert(chunk@ =~= old(self).remaining().subrange(0, n as int));
        assert(self.remaining() =~= old(self).remaining().subrange(
            n as int,
            old(self).remaining().len() as int,
        ));
        chunk
    }

    /// The next `n` bytes. Fails with `Error::IO` exactly when fewer are
    /// left; nothing is left then.
    pub fn read_exact(&mut self, n: usize) -> (r: Result<Vec<u8>, Error>)
        ensures
            n <= old(self).remaining().len() ==> r is Ok && r->Ok_0@ == old(self).remaining().subrange(0, n as int) && final(self).remaining() == old(self).remaining().subrange(n as int, old(self).remaining().len() as int),
            n > old(self).remaining().len() ==> r is Err && r->Err_0 == Error::IO && final(self).remaining() == Seq::<u8>::empty(),
    {
        proof {
            use_type_invariant(&*self);
        }
        if n > self.reader.len() - self.pos {
            self.pos = self.reader.len();
            assert(self.remaining() =~= Seq::<u8>::empty());
            return Err(Error::IO);
        }
        Ok(self.read(n))
    }
}

} // verus!
