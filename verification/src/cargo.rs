//! The directory in which cargo keeps the binaries a user has installed:
//! cargo's home directory with a fixed `bin` under it. Cargo has exactly one
//! home-resolution rule, so when the home cannot be determined the whole
//! chain fails with no further fallback.

use crate::paths::{join_segment, joined, map_join};
use vstd::prelude::*;

verus! {

/// The cargo binaries directory that a given cargo home directory yields:
/// its `bin` subdirectory, or nothing when the home itself did not resolve.
pub open spec fn resolve_cargo_bin(cargo_home: Option<Seq<char>>) -> Option<Seq<char>> {
    map_join(cargo_home, "bin"@)
}

/// Relies on home::cargo_home: cargo's home directory per cargo's own rule —
/// the value of `CARGO_HOME` when set and non-empty (joined under the
/// current directory when relative), else `.cargo` under the user's home
/// directory; an error when neither applies. Every path it returns is
/// non-empty. A path that is not valid UTF-8 is folded into the failure
/// case.
#[verifier::external_body]
fn fetch_cargo_home() -> (r: Option<String>)
    ensures
        r matches Some(p) ==> p@.len() > 0,
{
    home::cargo_home().ok().and_then(|p| p.into_os_string().into_string().ok())
}

/// The directory in which cargo keeps installed binaries, for a given cargo
/// home directory.
pub fn cargo_bin_dir_from_home(cargo_home: Option<String>) -> (r: Option<String>)
    ensures
        r.deep_view() == resolve_cargo_bin(cargo_home.deep_view()),
{
    match cargo_home {
        Some(h) => Some(join_segment(h.as_str(), "bin")),
        None => None,
    }
}

/// The directory in which cargo keeps installed binaries, resolved from the
/// live environment: the cargo home directory with `bin` under it, or
/// nothing when no cargo home can be determined.
pub fn cargo_bin_dir() -> (r: Option<String>)
    ensures
        r matches Some(p) ==> p@.len() > 0,
        r matches Some(p) ==> exists|h: Seq<char>| h.len() > 0 && p@ == joined(h, "bin"@),
{
    let cargo_home = fetch_cargo_home();
    let ghost home_view = cargo_home.deep_view();
    let r = cargo_bin_dir_from_home(cargo_home);
    proof {
        if r is Some {
            assert(home_view matches Some(h) && h.len() > 0 && r.deep_view() == Some(
                joined(h, "bin"@),
            ));
        }
    }
    r
}

} // verus!
