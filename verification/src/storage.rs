//! Where persisted state lives on the filesystem.
//!
//! The verified side keeps the location; reading and writing bytes belong to
//! the host.

use vstd::prelude::*;
use vstd::string::StringExecFns;

verus! {

/// A binary file used to persist state on the filesystem.
#[derive(Debug)]
pub struct BinaryFile {
    path: String,
}

impl BinaryFile {
    /// The path this file persists to.
    pub closed spec fn spec_path(&self) -> Seq<char> {
        self.path@
    }

    /// A binary file at this path.
    pub fn new(path: String) -> (f: BinaryFile)
        ensures
            f.spec_path() == path@,
    {
        BinaryFile { path }
    }

    /// The path this file persists to.
    pub fn path(&self) -> (r: &str)
        ensures
            r@ == self.spec_path(),
    {
        self.path.as_str()
    }
}

impl Clone for BinaryFile {
    fn clone(&self) -> (r: BinaryFile)
        ensures
            r.spec_path() == self.spec_path(),
    {
        BinaryFile { path: self.path.clone() }
    }
}

impl Default for BinaryFile {
    /// The default location for persisted services.
    fn default() -> (f: BinaryFile)
        ensures
            f.spec_path() == "/tmp/minitol/services.bin"@,
    {
        BinaryFile::new(String::from_str("/tmp/minitol/services.bin"))
    }
}

} // verus!
