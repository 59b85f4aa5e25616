//! Entries of an archive made from a file or a directory tree.
use vstd::prelude::*;

verus! {

/// Owner-read bit of a Unix file mode.
pub const OWNER_READ: u32 = 0o400;

/// The mode a file needs so that its owner can read it into an archive:
/// `None` when it is readable already.
pub fn readable_mode(mode: u32) -> (r: Option<u32>)
    ensures
        mode & OWNER_READ == 0 ==> r == Some(mode | OWNER_READ),
        mode & OWNER_READ != 0 ==> r is None,
{
    if mode & OWNER_READ == 0 {
        Some(mode | OWNER_READ)
    } else {
        None
    }
}

/// What a walked path becomes in the archive.
#[derive(Clone, Debug, PartialEq, Eq)]
pub enum Entry {
    File(String),
    Directory(String),
}

/// The archive entry of a walked path, named by its path relative to the
/// archived root: files are stored, directories are added, and the root
/// itself (the empty name) adds nothing.
pub fn entry_for(relative: &str, is_file: bool) -> (r: Option<Entry>)
    ensures
        is_file ==> (r matches Some(Entry::File(n)) && n@ == relative@),
        !is_file && relative@.len() > 0 ==> (r matches Some(Entry::Directory(n)) && n@ == relative@),
        !is_file && relative@.len() == 0 ==> r is None,
{
    if is_file {
        Some(Entry::File(relative.to_owned()))
    } else if relative.unicode_len() != 0 {
        Some(Entry::Directory(relative.to_owned()))
    } else {
        None
    }
}

} // verus!
