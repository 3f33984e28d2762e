//! Entries of a BND4 archive, cut out of the archive's bytes.

use vstd::prelude::*;
use vstd::slice::{slice_subrange, slice_to_vec};

verus! {

/// The bytes of one file of an archive, as the archive stores them.
#[derive(Debug)]
pub struct ArchiveEntry {
    pub data: Vec<u8>,
}

/// Turns the entry table of a BND4 archive into entries.
pub struct Bnd4Loader;

impl Bnd4Loader {
    /// The file extensions of the archives this loader is for.
    pub fn extensions(&self) -> (extensions: &[&str])
        ensures
            extensions@.len() == 2,
            extensions@[0]@ == "bnd.dcx"@,
            extensions@[1]@ == "bnd"@,
    {
        &["bnd.dcx", "bnd"]
    }

    /// The entry that the table places at `data_offset` with
    /// `compressed_size` bytes: a copy of exactly those bytes of `data`.
    pub fn entry(&self, data: &[u8], data_offset: usize, compressed_size: usize) -> (entry:
        ArchiveEntry)
        requires
            data_offset + compressed_size <= data.len(),
        ensures
            entry.data@ == data@.subrange(data_offset as int, data_offset + compressed_size),
    {
        let file_end: usize = data_offset + compressed_size;
        ArchiveEntry { data: slice_to_vec(slice_subrange(data, data_offset, file_end)) }
    }
}

} // verus!
