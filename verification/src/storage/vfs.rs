//! The virtual file system: error kinds, the file and file-system
//! interfaces, and the mount point.
use vstd::prelude::*;

verus! {

/// Why a file system operation failed.
#[derive(Debug, Clone, Copy, PartialEq, Eq, Structural)]
pub enum Error {
    NotFound,
    DiskFull,
    InvalidPath,
    Other,
}

/// An open file.
pub trait File {
    /// Reads into `buf`; the count of bytes read.
    fn read(&mut self, buf: &mut Vec<u8>) -> Result<usize, Error>;

    /// Writes `buf`; the count of bytes written.
    fn write(&mut self, buf: &[u8]) -> Result<usize, Error>;

    /// Moves to byte `pos`.
    fn seek(&mut self, pos: usize) -> Result<(), Error>;
}

/// A mountable file system whose files borrow it while open.
pub trait FileSystem {
    type Handle<'a>: File where Self: 'a;

    /// Opens an existing file.
    fn open<'a>(&'a mut self, path: &str) -> Result<Self::Handle<'a>, Error>;

    /// Creates a file.
    fn create<'a>(&'a mut self, path: &str) -> Result<Self::Handle<'a>, Error>;

    /// Creates a directory.
    fn mkdir(&mut self, path: &str) -> Result<(), Error>;
}

/// The root mount point: at most one file system.
pub struct Vfs<F> {
    pub root: Option<F>,
}

impl<F> Vfs<F> {
    /// Nothing mounted.
    pub fn new() -> (v: Self)
        ensures
            v.root is None,
    {
        Vfs { root: None }
    }

    /// Mounts `fs` at the root, replacing what was there.
    pub fn mount(&mut self, fs: F)
        ensures
            final(self).root == Some(fs),
    {
        self.root = Some(fs);
    }

    /// The mounted file system, if any.
    pub fn get_root(&mut self) -> (r: Option<&mut F>)
        ensures
            old(self).root is None ==> r is None,
            old(self).root matches Some(f) ==> r matches Some(g) && *g == f && final(self).root == Some(*final(g)),
    {
        match &mut self.root {
            Some(f) => Some(f),
            None => None,
        }
    }
}

} // verus!
