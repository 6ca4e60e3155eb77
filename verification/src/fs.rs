//! Files kept in memory, for hosts that have no file system.
//!
//! A `FileStore` maps paths to contents. A `File` gathers what is written to
//! it and becomes part of a store when it is closed.

use vstd::prelude::*;
use crate::bytes::{copy_range, push_all};
use crate::error::Error;

verus! {

/// Files by their paths.
pub struct FileStore {
    entries: Vec<(String, Vec<u8>)>,
}

/// A file that is being written.
pub struct File {
    path: String,
    buf: Vec<u8>,
}

/// The contents that were last entered under `path`, if any.
pub open spec fn lookup(entries: Seq<(String, Vec<u8>)>, path: Seq<char>) -> Option<Seq<u8>>
    decreases entries.len(),
{
    if entries.len() == 0 {
        None
    } else if entries.last().0@ == path {
        Some(entries.last().1@)
    } else {
        lookup(entries.drop_last(), path)
    }
}

/// An entry that is taken out does not change what is found under another
/// path.
pub proof fn lemma_lookup_remove(entries: Seq<(String, Vec<u8>)>, i: int, path: Seq<char>)
    requires
        0 <= i < entries.len(),
        entries[i].0@ != path,
    ensures
        lookup(entries.remove(i), path) == lookup(entries, path),
    decreases entries.len(),
{
    let last = entries.len() - 1;
    if i == last {
        assert(entries.remove(i) =~= entries.drop_last());
    } else {
        let shorter = entries.remove(i);
        assert(shorter.last() == entries.last());
        assert(shorter.drop_last() =~= entries.drop_last().remove(i));
        if entries.last().0@ != path {
            lemma_lookup_remove(entries.drop_last(), i, path);
        }
    }
}

/// Nothing is found under a path that no entry has.
pub proof fn lemma_lookup_absent(entries: Seq<(String, Vec<u8>)>, path: Seq<char>)
    requires
        forall|j: int| 0 <= j < entries.len() ==> (#[trigger] entries[j]).0@ != path,
    ensures
        lookup(entries, path) is None,
    decreases entries.len(),
{
    if entries.len() > 0 {
        let head = entries.drop_last();
        assert forall|j: int| 0 <= j < head.len() implies (#[trigger] head[j]).0@ != path by {
            assert(head[j] == entries[j]);
        }
        lemma_lookup_absent(head, path);
    }
}

impl FileStore {
    /// The contents of the file at `path`, if there is one.
    pub closed spec fn spec_read(&self, path: Seq<char>) -> Option<Seq<u8>> {
        lookup(self.entries@, path)
    }

    /// A store without files.
    pub fn new() -> (fs: FileStore)
        ensures
            forall|path: Seq<char>| fs.spec_read(path) is None,
    {
        FileStore { entries: Vec::new() }
    }

    fn remove_all(&mut self, path: &String)
        ensures
            forall|q: Seq<char>|
                #[trigger] final(self).spec_read(q) == if q == path@ {
                    None
                } else {
                    old(self).spec_read(q)
                },
    {
        let mut i: usize = 0;
        while i < self.entries.len()
            invariant
                i <= self.entries.len(),
                forall|j: int| 0 <= j < i ==> (#[trigger] self.entries@[j]).0@ != path@,
                forall|q: Seq<char>|
                    q != path@ ==> #[trigger] lookup(self.entries@, q) == lookup(
                        old(self).entries@,
                        q,
                    ),
            decreases self.entries.len() - i,
        {
            if self.entries[i].0 == *path {
                let ghost before = self.entries@;
                let taken = self.entries.remove(i);
                assert forall|q: Seq<char>| q != path@ implies #[trigger] lookup(
                    self.entries@,
                    q,
                ) == lookup(old(self).entries@, q) by {
                    lemma_lookup_remove(before, i as int, q);
                }
            } else {
                i += 1;
            }
        }
        proof {
            lemma_lookup_absent(self.entries@, path@);
        }
    }
}

impl File {
    /// The path that the file will be stored under.
    pub closed spec fn spec_path(&self) -> Seq<char> {
        self.path@
    }

    /// What has been written to the file.
    pub closed spec fn spec_content(&self) -> Seq<u8> {
        self.buf@
    }

    /// An empty file that will be stored under `path`.
    pub fn create(path: String) -> (file: File)
        ensures
            file.spec_path() == path@,
            file.spec_content() == Seq::<u8>::empty(),
    {
        File { path, buf: Vec::new() }
    }

    /// Appends `buf` to the file; gives the number of bytes appended, which
    /// is all of them.
    pub fn write(&mut self, buf: &[u8]) -> (written: usize)
        ensures
            written == buf@.len(),
            final(self).spec_content() == old(self).spec_content() + buf@,
            final(self).spec_path() == old(self).spec_path(),
    {
        push_all(&mut self.buf, buf);
        buf.len()
    }

    /// Stores the file: from now on its path leads to what was written to
    /// it.
    pub fn close(self, fs: &mut FileStore)
        ensures
            forall|q: Seq<char>|
                #[trigger] final(fs).spec_read(q) == if q == self.spec_path() {
                    Some(self.spec_content())
                } else {
                    old(fs).spec_read(q)
                },
    {
        fs_write_file(fs, self.path, self.buf)
    }
}

/// The contents of the file at `path`. Fails with `Error::IO` exactly when
/// there is no such file.
pub fn read(fs: &FileStore, path: &String) -> (r: Result<Vec<u8>, Error>)
    ensures
        match fs.spec_read(path@) {
            Some(content) => r is Ok && r->Ok_0@ == content,
            None => r is Err && r->Err_0 == Error::IO,
        },
{
    match fs_read_file(fs, path) {
        Some(content) => Ok(content),
        None => Err(Error::IO),
    }
}

/// The contents of the file at `path`, if there is one.
pub fn fs_read_file(fs: &FileStore, path: &String) -> (r: Option<Vec<u8>>)
    ensures
        match fs.spec_read(path@) {
            Some(content) => r is Some && r->Some_0@ == content,
            None => r is None,
        },
{
    let mut i: usize = fs.entries.len();
    assert(fs.entries@.subrange(0, i as int) =~= fs.entries@);
    while i > 0
        invariant
            i <= fs.entries.len(),
            lookup(fs.entries@, path@) == lookup(fs.entries@.subrange(0, i as int), path@),
        decreases i,
    {
        let ghost upto = fs.entries@.subrange(0, i as int);
        assert(upto.last() == fs.entries@[i - 1]);
        assert(upto.drop_last() =~= fs.entries@.subrange(0, i - 1));
        if fs.entries[i - 1].0 == *path {
            let content = &fs.entries[i - 1].1;
            let copy = copy_range(content.as_slice(), 0, content.len());
            assert(copy@ =~= content@);
            return Some(copy);
        }
        i -= 1;
    }
    None
}

/// Stores `content` under `path`, in place of what was there.
pub fn fs_write_file(fs: &mut FileStore, path: String, content: Vec<u8>)
    ensures
        forall|q: Seq<char>|
            #[trigger] final(fs).spec_read(q) == if q == path@ {
                Some(content@)
            } else {
                old(fs).spec_read(q)
            },
{
    fs.remove_all(&path);
    let ghost before = fs.entries@;
    let ghost removed = *fs;
    fs.entries.push((path, content));
    assert(fs.entries@.drop_last() =~= before);
    assert(fs.entries@.last().0@ == path@ && fs.entries@.last().1@ == content@);
    assert forall|q: Seq<char>| #[trigger] fs.spec_read(q) == if q == path@ {
        Some(content@)
    } else {
        old(fs).spec_read(q)
    } by {
        assert(removed.spec_read(q) == lookup(before, q));
    }
}

/// Removes the file at `path`, if there is one.
pub fn fs_remove_file(fs: &mut FileStore, path: &String)
    ensures
        forall|q: Seq<char>|
            #[trigger] final(fs).spec_read(q) == if q == path@ {
                None
            } else {
                old(fs).spec_read(q)
            },
{
    fs.remove_all(path);
}

} // verus!
