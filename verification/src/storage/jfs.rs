//! JFS: an append-only file system on a RAM disk.
use vstd::prelude::*;
use crate::storage::vfs::{Error, File, FileSystem};

verus! {

/// A zero-filled byte array standing for a disk.
pub struct RamDisk {
    pub data: Vec<u8>,
}

impl RamDisk {
    /// A disk of `size` zero bytes.
    pub fn new(size: usize) -> (d: Self)
        ensures
            d.data@ == Seq::new(size as nat, |i: int| 0u8),
    {
        let mut data: Vec<u8> = Vec::new();
        let mut i: usize = 0;
        while i < size
            invariant
                i <= size,
                data@ == Seq::new(i as nat, |k: int| 0u8),
            decreases size - i,
        {
            data.push(0u8);
            i = i + 1;
            assert(data@ =~= Seq::new(i as nat, |k: int| 0u8));
        }
        RamDisk { data }
    }
}

/// The file system: a disk and the position of the next write.
pub struct Jfs {
    pub storage: RamDisk,
    pub write_ptr: usize,
}

impl Jfs {
    /// An empty file system on a zeroed disk of `size` bytes.
    pub fn new(size: usize) -> (j: Self)
        ensures
            j.storage.data@ == Seq::new(size as nat, |i: int| 0u8),
            j.write_ptr == 0,
    {
        Jfs { storage: RamDisk::new(size), write_ptr: 0 }
    }

    /// The write position never passes the end of the disk.
    pub open spec fn wf(&self) -> bool {
        self.write_ptr <= self.storage.data@.len()
    }

    /// Opening an existing path: nothing is ever found.
    pub fn open(&mut self, path: &str) -> (r: Result<JfsFile<'_>, Error>)
        ensures
            r matches Err(e) && e == Error::NotFound,
            *final(self) == *old(self),
    {
        Err(Error::NotFound)
    }

    /// Creating a path: a handle whose writes append to the disk.
    pub fn create(&mut self, path: &str) -> (f: Result<JfsFile<'_>, Error>)
        ensures
            f matches Ok(h) && *h.jfs == *old(self) && *final(self) == *final(h.jfs),
    {
        Ok(JfsFile { jfs: self })
    }

    /// Directories are not supported.
    pub fn mkdir(&mut self, path: &str) -> (r: Result<(), Error>)
        ensures
            r == Err::<(), Error>(Error::Other),
            *final(self) == *old(self),
    {
        Err(Error::Other)
    }
}

/// An open file: every write goes at the file system's write position.
pub struct JfsFile<'a> {
    pub jfs: &'a mut Jfs,
}

impl<'a> JfsFile<'a> {
    /// Reads nothing.
    pub fn read(&mut self, buf: &mut Vec<u8>) -> (r: Result<usize, Error>)
        ensures
            r == Ok::<usize, Error>(0),
            final(buf)@ == old(buf)@,
    {
        Ok(0)
    }

    /// Appends `buf` at the write position: DiskFull (and nothing written)
    /// when it does not fit before the end of the disk.
    pub fn write(&mut self, buf: &[u8]) -> (r: Result<usize, Error>)
        ensures
            old(self).jfs.wf() ==> final(self).jfs.wf(),
            old(self).jfs.write_ptr + buf@.len() > old(self).jfs.storage.data@.len() ==>
                r == Err::<usize, Error>(Error::DiskFull) && *final(self).jfs == *old(self).jfs,
            old(self).jfs.write_ptr + buf@.len() <= old(self).jfs.storage.data@.len() ==>
                r == Ok::<usize, Error>(buf@.len() as usize)
                && final(self).jfs.write_ptr == old(self).jfs.write_ptr + buf@.len()
                && final(self).jfs.storage.data@ == old(self).jfs.storage.data@.subrange(0, old(self).jfs.write_ptr as int)
                    + buf@
                    + old(self).jfs.storage.data@.subrange(old(self).jfs.write_ptr + buf@.len(), old(self).jfs.storage.data@.len() as int),
    {
        let len = buf.len();
        let size = self.jfs.storage.data.len();
        if self.jfs.write_ptr > size || len > size - self.jfs.write_ptr {
            return Err(Error::DiskFull);
        }
        let start = self.jfs.write_ptr;
        let ghost d0 = self.jfs.storage.data@;
        let mut i: usize = 0;
        while i < len
            invariant
                i <= len,
                len == buf@.len(),
                start + len <= d0.len(),
                d0.len() == size,
                self.jfs.write_ptr == start,
                self.jfs.storage.data@.len() == d0.len(),
                self.jfs.storage.data@ == d0.subrange(0, start as int) + buf@.take(i as int) + d0.subrange(start + i, d0.len() as int),
            decreases len - i,
        {
            self.jfs.storage.data.set(start + i, buf[i]);
            i = i + 1;
            assert(self.jfs.storage.data@ =~= d0.subrange(0, start as int) + buf@.take(i as int) + d0.subrange(start + i, d0.len() as int));
        }
        assert(buf@.take(len as int) =~= buf@);
        self.jfs.write_ptr = start + len;
        Ok(len)
    }

    /// Seeking is accepted and ignored.
    pub fn seek(&mut self, pos: usize) -> (r: Result<(), Error>)
        ensures
            r == Ok::<(), Error>(()),
            *final(self).jfs == *old(self).jfs,
    {
        Ok(())
    }
}

impl FileSystem for Jfs {
    type Handle<'a> = JfsFile<'a>;

    fn open<'a>(&'a mut self, path: &str) -> (r: Result<JfsFile<'a>, Error>) {
        Jfs::open(self, path)
    }

    fn create<'a>(&'a mut self, path: &str) -> (r: Result<JfsFile<'a>, Error>) {
        Jfs::create(self, path)
    }

    fn mkdir(&mut self, path: &str) -> (r: Result<(), Error>) {
        Jfs::mkdir(self, path)
    }
}

impl<'a> File for JfsFile<'a> {
    fn read(&mut self, buf: &mut Vec<u8>) -> (r: Result<usize, Error>) {
        JfsFile::read(self, buf)
    }

    fn write(&mut self, buf: &[u8]) -> (r: Result<usize, Error>) {
        JfsFile::write(self, buf)
    }

    fn seek(&mut self, pos: usize) -> (r: Result<(), Error>) {
        JfsFile::seek(self, pos)
    }
}

} // verus!
