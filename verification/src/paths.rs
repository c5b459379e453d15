//! Plain-text path values and the small parsers shared by the resolution
//! chains.
//!
//! Paths are modelled as UTF-8 strings, and a path counts as absolute when it
//! starts with the separator `/` — the rule of the Unix-like platforms this
//! crate builds for.

use vstd::prelude::*;

verus! {

/// A path is absolute when it starts with the separator.
pub open spec fn is_absolute_path(s: Seq<char>) -> bool {
    s.len() > 0 && s[0] == '/'
}

/// What joining a fixed relative segment under a base path produces: a
/// separator is inserted only where the base does not already end with one,
/// and an empty base yields the segment alone.
pub open spec fn joined(base: Seq<char>, seg: Seq<char>) -> Seq<char> {
    if base.len() == 0 {
        seg
    } else if base[base.len() - 1] == '/' {
        base + seg
    } else {
        base + seq!['/'] + seg
    }
}

/// In a priority chain, the first source that yields a path wins.
pub open spec fn first_resolved(
    first: Option<Seq<char>>,
    second: Option<Seq<char>>,
) -> Option<Seq<char>> {
    if first is Some {
        first
    } else {
        second
    }
}

/// Joins a fixed segment under a directory that may have failed to resolve.
pub open spec fn map_join(dir: Option<Seq<char>>, seg: Seq<char>) -> Option<Seq<char>> {
    match dir {
        Some(d) => Some(joined(d, seg)),
        None => None,
    }
}

/// An override variable's value is taken verbatim when it is set and
/// non-empty; relative values are allowed.
pub open spec fn accepted_verbatim(v: Option<Seq<char>>) -> Option<Seq<char>> {
    match v {
        Some(p) => if p.len() > 0 {
            Some(p)
        } else {
            None
        },
        None => None,
    }
}

/// An XDG variable's value counts only when it is an absolute path; a
/// relative value is ignored as if the variable were unset.
pub open spec fn accepted_xdg(v: Option<Seq<char>>) -> Option<Seq<char>> {
    match v {
        Some(p) => if is_absolute_path(p) {
            Some(p)
        } else {
            None
        },
        None => None,
    }
}

/// Accepts an environment variable's value verbatim as a path when it is
/// non-empty; relative paths are allowed, unlike for XDG variables.
pub fn parse_path(path: String) -> (r: Option<String>)
    ensures
        r.deep_view() == accepted_verbatim(Some(path@)),
{
    if path.as_str().is_empty() {
        None
    } else {
        Some(path)
    }
}

/// Accepts an environment variable's value as a path only when it is
/// absolute, as the XDG base-directory specification demands; a relative
/// value is treated as if the variable were unset.
pub fn parse_xdg_path(path: String) -> (r: Option<String>)
    ensures
        r.deep_view() == accepted_xdg(Some(path@)),
{
    let n: usize = path.as_str().unicode_len();
    if n > 0 && path.as_str().get_char(0) == '/' {
        Some(path)
    } else {
        None
    }
}

/// Joins a fixed relative segment under a base path, inserting a separator
/// only where the base does not already end with one.
pub fn join_segment(base: &str, seg: &str) -> (r: String)
    ensures
        r@ == joined(base@, seg@),
{
    let n: usize = base.unicode_len();
    if n == 0 {
        seg.to_owned()
    } else if base.get_char(n - 1) == '/' {
        base.to_owned().concat(seg)
    } else {
        let r = base.to_owned().concat("/").concat(seg);
        proof {
            reveal_strlit("/");
            assert(r@ =~= joined(base@, seg@));
        }
        r
    }
}

} // verus!
