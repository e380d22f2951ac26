//! What a directory listing reports of each entry.
use vstd::prelude::*;

verus! {

/// One entry of a listed directory, by name.
pub struct DirEntry {
    pub name: String,
    pub is_directory: bool,
    pub is_file: bool,
}

} // verus!
