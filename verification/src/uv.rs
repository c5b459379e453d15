//! The directories in which uv keeps per-user state and installed tools.
//!
//! uv's tools live under `<state dir>/tools`, where the state directory is
//! resolved by a priority chain: the `UV_TOOL_DIR` override taken verbatim,
//! else the preferred (XDG-compliant) state directory, else a legacy
//! native-convention location kept for layouts older versions produced.
//! The chains over already-read environment values are pure and fully
//! specified; the lookups that consult the live environment go through
//! trusted wrappers around the `etcetera` crate.

use crate::paths::{
    accepted_verbatim, accepted_xdg, first_resolved, is_absolute_path, join_segment, joined,
    map_join, parse_path, parse_xdg_path,
};
use etcetera::base_strategy::BaseStrategy;
use vstd::prelude::*;

verus! {

/// Declares etcetera's XDG base-directory strategy type, so that values of
/// it can be carried between the trusted wrappers below; nothing of its
/// inside is visible here.
#[verifier::external_type_specification]
#[verifier::external_body]
pub struct ExXdg(etcetera::base_strategy::Xdg);

/// Relies on etcetera::base_strategy::choose_base_strategy: the preferred
/// base-directory strategy, which is the XDG strategy on every platform but
/// Windows; it resolves exactly when the user's home directory can be
/// located.
#[verifier::external_body]
fn fetch_base_strategy() -> Option<etcetera::base_strategy::Xdg> {
    etcetera::base_strategy::choose_base_strategy().ok()
}

/// Relies on etcetera::base_strategy::choose_native_strategy: the
/// platform-native base-directory strategy, which on the platforms this
/// crate builds for is the XDG strategy as well; it resolves exactly when
/// the user's home directory can be located.
#[verifier::external_body]
fn fetch_native_strategy() -> Option<etcetera::base_strategy::Xdg> {
    etcetera::base_strategy::choose_native_strategy().ok()
}

/// Relies on etcetera::base_strategy::BaseStrategy::data_dir of the XDG
/// strategy: the user's data directory — the value of `XDG_DATA_HOME` when
/// that variable holds an absolute path, else `.local/share` under the home
/// directory — so the result is never empty. A path that is not valid UTF-8
/// is folded into the failure case.
#[verifier::external_body]
fn strategy_data_dir(strategy: &etcetera::base_strategy::Xdg) -> (r: Option<String>)
    ensures
        r matches Some(p) ==> p@.len() > 0,
{
    strategy.data_dir().into_os_string().into_string().ok()
}

/// Relies on etcetera::home_dir: the current user's home directory per the
/// platform's notion of it; nothing when it cannot be determined. A path
/// that is not valid UTF-8 is folded into the failure case.
#[verifier::external_body]
fn fetch_home_dir() -> Option<String> {
    etcetera::home_dir().ok().and_then(|p| p.into_os_string().into_string().ok())
}

/// The uv tools directory that given sources yield: the override value
/// verbatim when set and non-empty, else `tools` under the first of the
/// preferred and legacy state directories that resolved.
pub open spec fn resolve_uv_tools(
    override_value: Option<Seq<char>>,
    state: Option<Seq<char>>,
    legacy: Option<Seq<char>>,
) -> Option<Seq<char>> {
    first_resolved(accepted_verbatim(override_value), map_join(first_resolved(state, legacy), "tools"@))
}

/// The user executable directory that given sources yield: the override
/// value verbatim when set and non-empty, else an absolute `XDG_BIN_HOME`,
/// else `../bin` under an absolute `XDG_DATA_HOME`, else `.local/bin` under
/// the home directory.
pub open spec fn resolve_user_exec(
    override_value: Option<Seq<char>>,
    xdg_bin_home: Option<Seq<char>>,
    xdg_data_home: Option<Seq<char>>,
    home: Option<Seq<char>>,
) -> Option<Seq<char>> {
    first_resolved(
        accepted_verbatim(override_value),
        first_resolved(
            accepted_xdg(xdg_bin_home),
            first_resolved(
                map_join(accepted_xdg(xdg_data_home), "../bin"@),
                map_join(map_join(home, ".local"@), "bin"@),
            ),
        ),
    )
}

/// The legacy uv state directory that a given native-convention data
/// directory yields: `uv` under it, with an extra `data` segment under that
/// on the Windows convention only.
pub open spec fn resolve_legacy_state(
    native_data: Option<Seq<char>>,
    windows_convention: bool,
) -> Option<Seq<char>> {
    if windows_convention {
        map_join(map_join(native_data, "uv"@), "data"@)
    } else {
        map_join(native_data, "uv"@)
    }
}

/// Law: a set, non-empty override value decides the uv tools directory by
/// itself — the resolution is that value verbatim, relative or absolute,
/// whatever the state and legacy sources hold.
pub proof fn lemma_uv_override_wins(
    override_value: Seq<char>,
    state: Option<Seq<char>>,
    legacy: Option<Seq<char>>,
)
    requires
        override_value.len() > 0,
    ensures
        resolve_uv_tools(Some(override_value), state, legacy) == Some(override_value),
{
}

/// Law: a set, non-empty override value decides the user executable
/// directory by itself, whatever the other sources hold.
pub proof fn lemma_exec_override_wins(
    override_value: Seq<char>,
    xdg_bin_home: Option<Seq<char>>,
    xdg_data_home: Option<Seq<char>>,
    home: Option<Seq<char>>,
)
    requires
        override_value.len() > 0,
    ensures
        resolve_user_exec(Some(override_value), xdg_bin_home, xdg_data_home, home) == Some(
            override_value,
        ),
{
}

/// Law: an `XDG_BIN_HOME` set to a relative path is skipped exactly as if
/// the variable were unset — resolution falls through to the next source.
pub proof fn lemma_relative_xdg_bin_skipped(
    override_value: Option<Seq<char>>,
    xdg_bin_home: Seq<char>,
    xdg_data_home: Option<Seq<char>>,
    home: Option<Seq<char>>,
)
    requires
        !is_absolute_path(xdg_bin_home),
    ensures
        resolve_user_exec(override_value, Some(xdg_bin_home), xdg_data_home, home)
            == resolve_user_exec(override_value, None, xdg_data_home, home),
{
}

/// Law: an `XDG_DATA_HOME` set to a relative path is skipped exactly as if
/// the variable were unset — resolution falls through to the next source.
pub proof fn lemma_relative_xdg_data_skipped(
    override_value: Option<Seq<char>>,
    xdg_bin_home: Option<Seq<char>>,
    xdg_data_home: Seq<char>,
    home: Option<Seq<char>>,
)
    requires
        !is_absolute_path(xdg_data_home),
    ensures
        resolve_user_exec(override_value, xdg_bin_home, Some(xdg_data_home), home)
            == resolve_user_exec(override_value, xdg_bin_home, None, home),
{
}

/// The directory in which uv keeps per-user persistent state, per the
/// preferred base-directory strategy: the strategy's data directory with
/// `uv` under it; nothing when no home directory can be located.
pub fn user_state_dir() -> (r: Option<String>)
    ensures
        r matches Some(p) ==> p@.len() > 0,
        r matches Some(p) ==> exists|d: Seq<char>| d.len() > 0 && p@ == joined(d, "uv"@),
{
    match fetch_base_strategy() {
        Some(strategy) => match strategy_data_dir(&strategy) {
            Some(d) => {
                let state = join_segment(d.as_str(), "uv");
                proof {
                    assert(d@.len() > 0 && state@ == joined(d@, "uv"@));
                }
                Some(state)
            },
            None => None,
        },
        None => None,
    }
}

/// The legacy uv state directory, for a given native-convention data
/// directory.
pub fn legacy_state_dir_from_native(
    native_data_dir: Option<String>,
    windows_convention: bool,
) -> (r: Option<String>)
    ensures
        r.deep_view() == resolve_legacy_state(native_data_dir.deep_view(), windows_convention),
{
    match native_data_dir {
        Some(d) => {
            let base = join_segment(d.as_str(), "uv");
            if windows_convention {
                Some(join_segment(base.as_str(), "data"))
            } else {
                Some(base)
            }
        },
        None => None,
    }
}

/// The legacy uv state directory, resolved from the live environment: `uv`
/// under the platform-native data directory. The platforms this crate
/// builds for follow the XDG convention natively, so the extra `data`
/// segment of the Windows convention does not apply here.
pub fn legacy_user_state_dir() -> (r: Option<String>)
    ensures
        r matches Some(p) ==> p@.len() > 0,
        r matches Some(p) ==> exists|d: Seq<char>| d.len() > 0 && p@ == joined(d, "uv"@),
{
    match fetch_native_strategy() {
        Some(strategy) => {
            let data_dir = strategy_data_dir(&strategy);
            let ghost data_view = data_dir.deep_view();
            let r = legacy_state_dir_from_native(data_dir, false);
            proof {
                if r is Some {
                    assert(data_view matches Some(d) && d.len() > 0 && r.deep_view() == Some(
                        joined(d, "uv"@),
                    ));
                }
            }
            r
        },
        None => None,
    }
}

/// The directory in which uv keeps installed tools, for given values of its
/// candidate sources.
pub fn uv_tools_dir_from_sources(
    override_value: Option<String>,
    state_dir: Option<String>,
    legacy_state_dir: Option<String>,
) -> (r: Option<String>)
    ensures
        r.deep_view() == resolve_uv_tools(
            override_value.deep_view(),
            state_dir.deep_view(),
            legacy_state_dir.deep_view(),
        ),
{
    let direct = match override_value {
        Some(p) => parse_path(p),
        None => None,
    };
    match direct {
        Some(p) => Some(p),
        None => {
            let base = match state_dir {
                Some(d) => Some(d),
                None => legacy_state_dir,
            };
            match base {
                Some(d) => Some(join_segment(d.as_str(), "tools")),
                None => None,
            }
        },
    }
}

/// The directory in which uv keeps installed tools, resolved from the given
/// `UV_TOOL_DIR` value and the live environment: the override verbatim when
/// set and non-empty, else `tools` under the first state directory that
/// resolves. The sources are consulted lazily: a set override asks for no
/// state directory, and the legacy lookup runs only when the preferred one
/// fails.
pub fn uv_tools_dir(override_value: Option<String>) -> (r: Option<String>)
    ensures
        override_value matches Some(p) ==> (p@.len() > 0 ==> r.deep_view() == Some(p@)),
        r matches Some(p) ==> p@.len() > 0,
        exists|state: Option<Seq<char>>, legacy: Option<Seq<char>>|
            r.deep_view() == resolve_uv_tools(override_value.deep_view(), state, legacy),
{
    let ghost override_view = override_value.deep_view();
    let direct = uv_tools_dir_from_sources(override_value, None, None);
    match direct {
        Some(p) => {
            proof {
                assert(Some(p).deep_view() == resolve_uv_tools(override_view, None, None));
            }
            Some(p)
        },
        None => {
            let state = user_state_dir();
            let legacy = if state.is_some() {
                None
            } else {
                legacy_user_state_dir()
            };
            let ghost state_view = state.deep_view();
            let ghost legacy_view = legacy.deep_view();
            let r = uv_tools_dir_from_sources(None, state, legacy);
            proof {
                assert(r.deep_view() == resolve_uv_tools(override_view, state_view, legacy_view));
            }
            r
        },
    }
}

/// The user-level directory for storing executables, for given values of
/// its candidate sources: the override verbatim when set and non-empty,
/// else an absolute `XDG_BIN_HOME`, else `../bin` under an absolute
/// `XDG_DATA_HOME`, else `.local/bin` under the home directory.
pub fn user_executable_directory_from(
    override_value: Option<String>,
    xdg_bin_home: Option<String>,
    xdg_data_home: Option<String>,
    home_dir: Option<String>,
) -> (r: Option<String>)
    ensures
        r.deep_view() == resolve_user_exec(
            override_value.deep_view(),
            xdg_bin_home.deep_view(),
            xdg_data_home.deep_view(),
            home_dir.deep_view(),
        ),
{
    let direct = match override_value {
        Some(p) => parse_path(p),
        None => None,
    };
    match direct {
        Some(p) => {
            return Some(p);
        },
        None => {},
    }
    let bin = match xdg_bin_home {
        Some(p) => parse_xdg_path(p),
        None => None,
    };
    match bin {
        Some(p) => {
            return Some(p);
        },
        None => {},
    }
    let data = match xdg_data_home {
        Some(p) => parse_xdg_path(p),
        None => None,
    };
    match data {
        Some(p) => {
            return Some(join_segment(p.as_str(), "../bin"));
        },
        None => {},
    }
    match home_dir {
        Some(h) => Some(join_segment(join_segment(h.as_str(), ".local").as_str(), "bin")),
        None => None,
    }
}

/// The user-level directory for storing executables, resolved from the
/// given environment values, with the home directory taken from the live
/// environment as the last resort — and looked up only when every given
/// source has failed.
pub fn user_executable_directory(
    override_value: Option<String>,
    xdg_bin_home: Option<String>,
    xdg_data_home: Option<String>,
) -> (r: Option<String>)
    ensures
        accepted_verbatim(override_value.deep_view()) matches Some(p) ==> r.deep_view() == Some(p),
        accepted_verbatim(override_value.deep_view()) is None ==> (accepted_xdg(
            xdg_bin_home.deep_view(),
        ) matches Some(p) ==> r.deep_view() == Some(p)),
        accepted_verbatim(override_value.deep_view()) is None && accepted_xdg(
            xdg_bin_home.deep_view(),
        ) is None ==> (accepted_xdg(xdg_data_home.deep_view()) matches Some(p) ==> r.deep_view()
            == Some(joined(p, "../bin"@))),
        exists|h: Option<Seq<char>>|
            r.deep_view() == resolve_user_exec(
                override_value.deep_view(),
                xdg_bin_home.deep_view(),
                xdg_data_home.deep_view(),
                h,
            ),
{
    let ghost override_view = override_value.deep_view();
    let ghost bin_view = xdg_bin_home.deep_view();
    let ghost data_view = xdg_data_home.deep_view();
    let given = user_executable_directory_from(override_value, xdg_bin_home, xdg_data_home, None);
    match given {
        Some(p) => {
            proof {
                assert(Some(p).deep_view() == resolve_user_exec(
                    override_view,
                    bin_view,
                    data_view,
                    None,
                ));
            }
            Some(p)
        },
        None => {
            let home_dir = fetch_home_dir();
            let ghost h = home_dir.deep_view();
            let r = user_executable_directory_from(None, None, None, home_dir);
            proof {
                assert(r.deep_view() == resolve_user_exec(override_view, bin_view, data_view, h));
            }
            r
        },
    }
}

} // verus!
