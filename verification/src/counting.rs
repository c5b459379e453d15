//! Counting the qualifying entries of a resolved tool directory.
//!
//! The caller reads the directory listing and hands it in as plain values:
//! one [`EntryKind`] per entry the listing yielded, or nothing at all where
//! the directory could not be opened. Absence of a count is deliberately
//! distinct from zero: a directory that cannot be read, and one with no
//! qualifying entries, both yield no count, so that a reporter can omit the
//! line instead of claiming "0 tools installed".

use vstd::prelude::*;

verus! {

/// What a single directory entry turned out to be: a subdirectory, an entry
/// of any other kind (a regular file, a symlink), or an entry whose kind
/// could not be determined (for instance a broken symlink whose type lookup
/// failed). Undetermined entries are never counted as tools.
#[derive(Clone, Copy, Debug, PartialEq, Eq, Structural)]
pub enum EntryKind {
    Directory,
    Other,
    Unknown,
}

/// How many entries of a listing are subdirectories.
pub open spec fn dir_count(s: Seq<EntryKind>) -> nat
    decreases s.len(),
{
    if s.len() == 0 {
        0
    } else {
        dir_count(s.drop_last()) + if s.last() is Directory {
            1nat
        } else {
            0nat
        }
    }
}

/// How many entries of a listing have a determined kind.
pub open spec fn known_count(s: Seq<EntryKind>) -> nat
    decreases s.len(),
{
    if s.len() == 0 {
        0
    } else {
        known_count(s.drop_last()) + if s.last() is Unknown {
            0nat
        } else {
            1nat
        }
    }
}

/// Counts the entries of a listing whose kind was determined.
fn count_known(entries: &Vec<EntryKind>) -> (n: usize)
    ensures
        n == known_count(entries@),
{
    let mut n: usize = 0;
    let mut i: usize = 0;
    while i < entries.len()
        invariant
            i <= entries.len(),
            n == known_count(entries@.take(i as int)),
            n <= i,
        decreases entries.len() - i,
    {
        proof {
            assert(entries@.take(i + 1).drop_last() =~= entries@.take(i as int));
        }
        match entries[i] {
            EntryKind::Unknown => {},
            _ => {
                n = n + 1;
            },
        }
        i = i + 1;
    }
    proof {
        assert(entries@.take(entries@.len() as int) =~= entries@);
    }
    n
}

/// Counts the subdirectory entries of a listing.
fn count_directories(entries: &Vec<EntryKind>) -> (n: usize)
    ensures
        n == dir_count(entries@),
{
    let mut n: usize = 0;
    let mut i: usize = 0;
    while i < entries.len()
        invariant
            i <= entries.len(),
            n == dir_count(entries@.take(i as int)),
            n <= i,
        decreases entries.len() - i,
    {
        proof {
            assert(entries@.take(i + 1).drop_last() =~= entries@.take(i as int));
        }
        match entries[i] {
            EntryKind::Directory => {
                n = n + 1;
            },
            _ => {},
        }
        i = i + 1;
    }
    proof {
        assert(entries@.take(entries@.len() as int) =~= entries@);
    }
    n
}

/// Counts the binaries cargo has installed, given the listing of its `bin`
/// directory. Every entry whose kind was determined counts as one installed
/// binary; entries that errored while the listing was read are silently
/// skipped. No listing, and a listing with no counted entry, yield no count
/// rather than zero.
pub fn count_cargo(listing: Option<Vec<EntryKind>>) -> (r: Option<usize>)
    ensures
        listing is None ==> r is None,
        listing matches Some(v) ==> (if known_count(v@) == 0 {
            r is None
        } else {
            r == Some(known_count(v@) as usize)
        }),
{
    match listing {
        None => None,
        Some(v) => {
            let n = count_known(&v);
            if n == 0 {
                None
            } else {
                Some(n)
            }
        },
    }
}

/// Counts the tools uv has installed, given the listing of its tools
/// directory. Each subdirectory is one installed tool; every other entry is
/// ignored. No listing, and a listing without a single subdirectory, yield
/// no count rather than zero.
pub fn count_uv(listing: Option<Vec<EntryKind>>) -> (r: Option<usize>)
    ensures
        listing is None ==> r is None,
        listing matches Some(v) ==> (if dir_count(v@) == 0 {
            r is None
        } else {
            r == Some(dir_count(v@) as usize)
        }),
{
    match listing {
        None => None,
        Some(v) => {
            let n = count_directories(&v);
            if n == 0 {
                None
            } else {
                Some(n)
            }
        },
    }
}

} // verus!
