//! The partition table that the second-stage bootloader reads.
//!
//! Layout, all integers little-endian: the magic `"BFPT\0\0"` (bytes 0..6),
//! the number of entries (6..10), two bytes of zero (10..12), the CRC-32 of
//! bytes 0..12 (12..16), the entries at 36 bytes each (from 16), and the
//! CRC-32 of the entries. The two addresses of `Table` are kept in the
//! configuration but are not part of the serialised table.

use vstd::prelude::*;
use vstd::utf8::encode_utf8;
use crate::bytes::{
    fill, le32, le32_at, lemma_le_write_read, push_all, push_fill, push_u32_le,
};
use crate::digest::{checksum_ieee, crc32_ieee};
use crate::error::Error;

verus! {

/// Length of the table's header, checksum included.
pub const PARTITION_HEADER_LEN: usize = 16;

/// Length of a serialised entry.
pub const PARTITION_ENTRY_LEN: usize = 36;

/// Where the two copies of the table lie in flash.
#[derive(Clone, Copy, Debug, Default)]
pub struct Table {
    pub address0: u32,
    pub address1: u32,
}

/// One partition.
#[derive(Clone, Debug)]
pub struct Entry {
    /// Partition type; its low three bytes are written.
    pub type_: u32,
    /// Partition name, at most eight bytes of UTF-8.
    pub name: String,
    pub address0: u32,
    pub address1: u32,
    pub size0: u32,
    pub size1: u32,
    pub len: u32,
}

/// A partition table.
#[derive(Clone, Debug)]
pub struct PartitionCfg {
    /// Number of entries, as last stored by `update`.
    pub entry_len: u32,
    /// CRC-32 of bytes 0..12, as last stored by `update`.
    pub checksum: u32,
    pub pt_table: Table,
    pub pt_entry: Vec<Entry>,
    /// CRC-32 of the serialised entries, as last stored by `update`.
    pub file_checksum: u32,
}

/// The six bytes `"BFPT\0\0"`.
pub open spec fn partition_magic() -> Seq<u8> {
    seq![0x42, 0x46, 0x50, 0x54, 0x00, 0x00]
}

/// The nine-byte name field for a name of at most eight bytes: the name,
/// then zeros.
pub open spec fn name_field(name: Seq<u8>) -> Seq<u8> {
    name + fill(0, (9 - name.len()) as nat)
}

/// The entries serialised one after the other.
pub open spec fn entries_bytes(entries: Seq<Entry>) -> Seq<u8>
    decreases entries.len(),
{
    if entries.len() == 0 {
        Seq::<u8>::empty()
    } else {
        entries_bytes(entries.drop_last()) + entries.last().spec_bytes()
    }
}

/// Whether every name is at most eight bytes long.
pub open spec fn names_fit(entries: Seq<Entry>) -> bool {
    forall|i: int| 0 <= i < entries.len() ==> (#[trigger] entries[i]).name_fits()
}

/// The serialised entries are 36 bytes each, in order.
pub proof fn lemma_entries_bytes(entries: Seq<Entry>, i: int)
    requires
        names_fit(entries),
        0 <= i < entries.len(),
    ensures
        entries_bytes(entries).len() == 36 * entries.len(),
        entries_bytes(entries).subrange(36 * i, 36 * i + 36) == entries[i].spec_bytes(),
    decreases entries.len(),
{
    let head = entries.drop_last();
    lemma_entries_len(entries);
    lemma_entries_len(head);
    entries.last().lemma_layout();
    if i == entries.len() - 1 {
        assert(entries_bytes(entries).subrange(36 * i, 36 * i + 36) =~= entries[i].spec_bytes());
    } else {
        lemma_entries_bytes(head, i);
        assert(entries_bytes(entries).subrange(36 * i, 36 * i + 36) =~= entries_bytes(
            head,
        ).subrange(36 * i, 36 * i + 36));
    }
}

/// The serialised entries are 36 bytes each.
pub proof fn lemma_entries_len(entries: Seq<Entry>)
    requires
        names_fit(entries),
    ensures
        entries_bytes(entries).len() == 36 * entries.len(),
    decreases entries.len(),
{
    if entries.len() > 0 {
        lemma_entries_len(entries.drop_last());
        entries.last().lemma_layout();
    }
}

impl Entry {
    /// The name as UTF-8.
    pub open spec fn spec_name(self) -> Seq<u8> {
        encode_utf8(self.name@)
    }

    /// Whether the name is at most eight bytes long.
    pub open spec fn name_fits(self) -> bool {
        self.spec_name().len() <= 8
    }

    /// The low three bytes of the partition type, least significant first.
    pub open spec fn spec_type(self) -> Seq<u8> {
        seq![
            (self.type_ % 256) as u8,
            (self.type_ / 256 % 256) as u8,
            (self.type_ / 65536 % 256) as u8,
        ]
    }

    /// The serialised entry of a name that fits: type, name field, the five
    /// numbers, and four bytes of zero.
    pub open spec fn spec_bytes(self) -> Seq<u8> {
        self.spec_type() + name_field(self.spec_name()) + le32(self.address0) + le32(
            self.address1,
        ) + le32(self.size0) + le32(self.size1) + le32(self.len) + le32(0)
    }

    /// A serialised entry is 36 bytes; bytes 3..12 are the name field, which
    /// begins with the name and ends with at least one zero.
    pub proof fn lemma_layout(self)
        requires
            self.name_fits(),
        ensures
            self.spec_bytes().len() == 36,
            self.spec_bytes().subrange(0, 3) == self.spec_type(),
            self.spec_bytes().subrange(3, 12) == name_field(self.spec_name()),
            name_field(self.spec_name()).len() == 9,
            name_field(self.spec_name()).subrange(0, self.spec_name().len() as int)
                == self.spec_name(),
            forall|i: int|
                self.spec_name().len() <= i < 9 ==> #[trigger] name_field(self.spec_name())[i]
                    == 0,
            name_field(self.spec_name())[8] == 0,
    {
        let b = self.spec_bytes();
        let f = name_field(self.spec_name());
        assert(b.subrange(0, 3) =~= self.spec_type());
        assert(b.subrange(3, 12) =~= f);
        assert(f.subrange(0, self.spec_name().len() as int) =~= self.spec_name());
    }

    /// Appends the nine-byte name field of `name`. Fails with
    /// `Error::ParseError`, appending nothing, exactly when the name is
    /// longer than eight bytes.
    pub fn write_name(name: &str, output: &mut Vec<u8>) -> (r: Result<(), Error>)
        ensures
            encode_utf8(name@).len() <= 8 ==> r == Ok::<(), Error>(()) && final(output)@ == old(output)@ + name_field(encode_utf8(name@)),
            encode_utf8(name@).len() > 8 ==> r == Err::<(), Error>(Error::ParseError) && final(output)@ == old(output)@,
    {
        let bytes = name.as_bytes();
        if bytes.len() > 8 {
            return Err(Error::ParseError);
        }
        push_all(output, bytes);
        push_fill(output, 0, 9 - bytes.len());
        assert(output@ =~= old(output)@ + name_field(encode_utf8(name@)));
        Ok(())
    }

    /// Serialises the entry. Fails with `Error::ParseError` exactly when the
    /// name is longer than eight bytes.
    pub fn to_bytes(&self) -> (r: Result<Vec<u8>, Error>)
        ensures
            self.name_fits() ==> r is Ok && r->Ok_0@ == self.spec_bytes(),
            !self.name_fits() ==> r == Err::<Vec<u8>, Error>(Error::ParseError),
    {
        let mut out: Vec<u8> = Vec::new();
        out.push((self.type_ % 256) as u8);
        out.push((self.type_ / 256 % 256) as u8);
        out.push((self.type_ / 65536 % 256) as u8);
        assert(out@ =~= self.spec_type());
        match Entry::write_name(self.name.as_str(), &mut out) {
            Ok(()) => {},
            Err(e) => {
                return Err(Error::ParseError);
            },
        }
        push_u32_le(&mut out, self.address0);
        push_u32_le(&mut out, self.address1);
        push_u32_le(&mut out, self.size0);
        push_u32_le(&mut out, self.size1);
        push_u32_le(&mut out, self.len);
        push_u32_le(&mut out, 0);
        Ok(out)
    }
}

impl PartitionCfg {
    /// Bytes 0..12: magic, number of entries, two bytes of zero.
    pub open spec fn spec_prefix(self) -> Seq<u8> {
        partition_magic() + le32(self.entry_len) + seq![0u8, 0u8]
    }

    /// The serialised table of entries whose names fit.
    pub open spec fn spec_bytes(self) -> Seq<u8> {
        self.spec_prefix() + le32(self.checksum) + entries_bytes(self.pt_entry@) + le32(
            self.file_checksum,
        )
    }

    /// Whether the table can be serialised: every name is at most eight
    /// bytes long and the number of entries fits 32 bits.
    pub open spec fn serialisable(self) -> bool {
        names_fit(self.pt_entry@) && self.pt_entry@.len() <= u32::MAX
    }

    /// The table as `update` leaves it: the number of entries and both
    /// checksums recomputed.
    #[verifier::opaque]
    pub open spec fn sealed(self) -> PartitionCfg {
        let counted = PartitionCfg { entry_len: self.pt_entry@.len() as u32, ..self };
        PartitionCfg {
            checksum: crc32_ieee(counted.spec_prefix()),
            file_checksum: crc32_ieee(entries_bytes(self.pt_entry@)),
            ..counted
        }
    }

    /// Whether the stored number of entries and both stored checksums agree
    /// with the table.
    pub open spec fn consistent(self) -> bool {
        &&& self.entry_len == self.pt_entry@.len()
        &&& self.checksum == crc32_ieee(self.spec_bytes().subrange(0, 12))
        &&& self.file_checksum == crc32_ieee(
            self.spec_bytes().subrange(16, 16 + 36 * (self.pt_entry@.len() as int)),
        )
    }

    /// Where each part lies in the serialised table.
    pub proof fn lemma_layout(self)
        requires
            names_fit(self.pt_entry@),
        ensures
            self.spec_prefix().len() == 12,
            self.spec_bytes().len() == 20 + 36 * self.pt_entry@.len(),
            self.spec_bytes().subrange(0, 6) == partition_magic(),
            self.spec_bytes().subrange(0, 12) == self.spec_prefix(),
            self.spec_bytes().subrange(16, 16 + 36 * (self.pt_entry@.len() as int)) == entries_bytes(
                self.pt_entry@,
            ),
            le32_at(self.spec_bytes(), 6) == self.entry_len,
            le32_at(self.spec_bytes(), 12) == self.checksum,
            le32_at(self.spec_bytes(), 16 + 36 * (self.pt_entry@.len() as int)) == self.file_checksum,
    {
        let n = self.pt_entry@.len() as int;
        let b = self.spec_bytes();
        lemma_entries_len(self.pt_entry@);
        lemma_le_write_read(0, self.entry_len);
        lemma_le_write_read(0, self.checksum);
        lemma_le_write_read(0, self.file_checksum);
        assert(b.subrange(0, 6) =~= partition_magic());
        assert(b.subrange(0, 12) =~= self.spec_prefix());
        assert(b.subrange(16, 16 + 36 * n) =~= entries_bytes(self.pt_entry@));
        assert(b.subrange(6, 10) =~= le32(self.entry_len));
        assert(b.subrange(12, 16) =~= le32(self.checksum));
        assert(b.subrange(16 + 36 * n, 20 + 36 * n) =~= le32(self.file_checksum));
        assert(le32_at(b, 6) == le32_at(b.subrange(6, 10), 0));
        assert(le32_at(b, 12) == le32_at(b.subrange(12, 16), 0));
        assert(le32_at(b, 16 + 36 * n) == le32_at(b.subrange(16 + 36 * n, 20 + 36 * n), 0));
    }

    /// A serialisable table, once updated, is consistent: the stored number
    /// of entries is the number of entries, the header checksum (at 12) is
    /// the CRC-32 of bytes 0..12, the file checksum (after the entries) is
    /// the CRC-32 of the entries, and entry `i` lies at `16 + 36 * i` with
    /// its nine-byte name field at offset 3: the name, of at most eight
    /// bytes, then zeros.
    pub proof fn lemma_sealed(self, i: int)
        requires
            self.serialisable(),
        ensures
            self.sealed().consistent(),
            self.sealed().pt_entry == self.pt_entry,
            self.sealed().pt_table == self.pt_table,
            ({
                let image = self.sealed().spec_bytes();
                let n = self.pt_entry@.len() as int;
                &&& image.len() == 20 + 36 * n
                &&& le32_at(image, 6) == n
                &&& le32_at(image, 12) == crc32_ieee(image.subrange(0, 12))
                &&& le32_at(image, 16 + 36 * n) == crc32_ieee(image.subrange(16, 16 + 36 * n))
                &&& 0 <= i < n ==> {
                    let name = self.pt_entry@[i].spec_name();
                    let field = image.subrange(16 + 36 * i + 3, 16 + 36 * i + 12);
                    &&& image.subrange(16 + 36 * i, 16 + 36 * i + 36)
                        == self.pt_entry@[i].spec_bytes()
                    &&& name.len() <= 8
                    &&& field.len() == 9
                    &&& field.subrange(0, name.len() as int) == name
                    &&& forall|j: int| name.len() <= j < 9 ==> #[trigger] field[j] == 0
                    &&& field[8] == 0
                }
            }),
    {
        reveal(PartitionCfg::sealed);
        let s = self.sealed();
        let image = s.spec_bytes();
        let n = self.pt_entry@.len() as int;
        s.lemma_layout();
        if 0 <= i < n {
            let e = self.pt_entry@[i];
            lemma_entries_bytes(self.pt_entry@, i);
            e.lemma_layout();
            let all = entries_bytes(self.pt_entry@);
            assert(image.subrange(16 + 36 * i, 16 + 36 * i + 36) =~= image.subrange(
                16,
                16 + 36 * n,
            ).subrange(36 * i, 36 * i + 36));
            assert(image.subrange(16 + 36 * i + 3, 16 + 36 * i + 12) =~= e.spec_bytes().subrange(
                3,
                12,
            ));
        }
    }

    /// The CRC-32 of bytes 0..12 of the serialised table.
    pub fn header_checksum(&self) -> (sum: u32)
        ensures
            sum == crc32_ieee(self.spec_prefix()),
    {
        let prefix = self.prefix();
        checksum_ieee(prefix.as_slice())
    }

    fn prefix(&self) -> (out: Vec<u8>)
        ensures
            out@ == self.spec_prefix(),
    {
        let mut out: Vec<u8> = Vec::new();
        out.push(0x42);
        out.push(0x46);
        out.push(0x50);
        out.push(0x54);
        out.push(0x00);
        out.push(0x00);
        assert(out@ =~= partition_magic());
        push_u32_le(&mut out, self.entry_len);
        out.push(0);
        out.push(0);
        assert(out@ =~= self.spec_prefix());
        out
    }

    /// Serialises the entries one after the other. Fails with
    /// `Error::ParseError` exactly when a name is longer than eight bytes.
    pub fn entries_to_bytes(&self) -> (r: Result<Vec<u8>, Error>)
        ensures
            names_fit(self.pt_entry@) ==> r is Ok && r->Ok_0@ == entries_bytes(self.pt_entry@),
            !names_fit(self.pt_entry@) ==> r == Err::<Vec<u8>, Error>(Error::ParseError),
    {
        let mut out: Vec<u8> = Vec::new();
        let mut i: usize = 0;
        while i < self.pt_entry.len()
            invariant
                i <= self.pt_entry.len(),
                names_fit(self.pt_entry@.subrange(0, i as int)),
                out@ == entries_bytes(self.pt_entry@.subrange(0, i as int)),
            decreases self.pt_entry.len() - i,
        {
            let ghost done = self.pt_entry@.subrange(0, i as int);
            let ghost next = self.pt_entry@.subrange(0, i + 1);
            assert(next.drop_last() =~= done);
            assert(next.last() == self.pt_entry@[i as int]);
            match self.pt_entry[i].to_bytes() {
                Ok(bytes) => {
                    push_all(&mut out, bytes.as_slice());
                    assert forall|j: int| 0 <= j < next.len() implies (
                    #[trigger] next[j]).name_fits() by {
                        if j < i {
                            assert(done[j].name_fits());
                        }
                    }
                },
                Err(e) => {
                    assert(!self.pt_entry@[i as int].name_fits());
                    return Err(Error::ParseError);
                },
            }
            i += 1;
        }
        assert(self.pt_entry@.subrange(0, i as int) =~= self.pt_entry@);
        Ok(out)
    }

    /// The CRC-32 of the serialised entries. Fails with `Error::ParseError`
    /// exactly when a name is longer than eight bytes.
    pub fn checksum(&self) -> (r: Result<u32, Error>)
        ensures
            names_fit(self.pt_entry@) ==> r == Ok::<u32, Error>(
                crc32_ieee(entries_bytes(self.pt_entry@)),
            ),
            !names_fit(self.pt_entry@) ==> r == Err::<u32, Error>(Error::ParseError),
    {
        match self.entries_to_bytes() {
            Ok(bytes) => Ok(checksum_ieee(bytes.as_slice())),
            Err(e) => Err(Error::ParseError),
        }
    }

    /// Stores the number of entries, then the header checksum, then the
    /// checksum of the entries. Fails with `Error::ParseError`, changing
    /// nothing, exactly when the table is not serialisable.
    pub fn update(&mut self) -> (r: Result<(), Error>)
        ensures
            old(self).serialisable() ==> r == Ok::<(), Error>(()) && *final(self) == old(self).sealed() && final(self).consistent(),
            !old(self).serialisable() ==> r == Err::<(), Error>(Error::ParseError) && *final(self)
                == *old(self),
    {
        reveal(PartitionCfg::sealed);
        if self.pt_entry.len() > 0xFFFF_FFFF {
            return Err(Error::ParseError);
        }
        let file_sum = match self.checksum() {
            Ok(sum) => sum,
            Err(e) => {
                return Err(Error::ParseError);
            },
        };
        self.entry_len = self.pt_entry.len() as u32;
        let header_sum = self.header_checksum();
        self.checksum = header_sum;
        self.file_checksum = file_sum;
        proof {
            self.lemma_layout();
        }
        Ok(())
    }

    /// Serialises the table with the count and the checksums it holds.
    /// Fails with `Error::ParseError` exactly when a name is longer than
    /// eight bytes.
    pub fn to_bytes(&self) -> (r: Result<Vec<u8>, Error>)
        ensures
            names_fit(self.pt_entry@) ==> r is Ok && r->Ok_0@ == self.spec_bytes(),
            !names_fit(self.pt_entry@) ==> r == Err::<Vec<u8>, Error>(Error::ParseError),
    {
        let entries = match self.entries_to_bytes() {
            Ok(bytes) => bytes,
            Err(e) => {
                return Err(Error::ParseError);
            },
        };
        let mut out = self.prefix();
        push_u32_le(&mut out, self.checksum);
        push_all(&mut out, entries.as_slice());
        push_u32_le(&mut out, self.file_checksum);
        Ok(out)
    }
}

} // verus!
