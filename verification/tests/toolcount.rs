use toolcount::cargo::cargo_bin_dir_from_home;
use toolcount::counting::{count_cargo, count_uv, EntryKind};
use toolcount::paths::{join_segment, parse_path, parse_xdg_path};
use toolcount::uv::{
    legacy_state_dir_from_native, user_executable_directory_from, uv_tools_dir_from_sources,
};

fn s(text: &str) -> String {
    String::from(text)
}

#[test]
fn override_taken_verbatim_over_everything() {
    let r = uv_tools_dir_from_sources(
        Some(s("/tmp/mytools")),
        Some(s("/home/u/.local/share/uv")),
        Some(s("/home/u/.local/share/uv")),
    );
    assert_eq!(r, Some(s("/tmp/mytools")));
}

#[test]
fn relative_override_taken_verbatim() {
    let r = uv_tools_dir_from_sources(Some(s("rel/tools")), Some(s("/abs/state")), None);
    assert_eq!(r, Some(s("rel/tools")));
}

#[test]
fn empty_override_falls_through_to_state_dir() {
    let r = uv_tools_dir_from_sources(Some(s("")), Some(s("/home/u/.local/share/uv")), None);
    assert_eq!(r, Some(s("/home/u/.local/share/uv/tools")));
}

#[test]
fn state_dir_preferred_over_legacy() {
    let r = uv_tools_dir_from_sources(None, Some(s("/preferred/uv")), Some(s("/legacy/uv")));
    assert_eq!(r, Some(s("/preferred/uv/tools")));
}

#[test]
fn legacy_dir_used_when_state_dir_fails() {
    let r = uv_tools_dir_from_sources(None, None, Some(s("/legacy/uv")));
    assert_eq!(r, Some(s("/legacy/uv/tools")));
}

#[test]
fn no_source_no_directory() {
    assert_eq!(uv_tools_dir_from_sources(None, None, None), None);
}

#[test]
fn parse_path_accepts_relative_rejects_empty() {
    assert_eq!(parse_path(s("rel/path")), Some(s("rel/path")));
    assert_eq!(parse_path(s("")), None);
}

#[test]
fn relative_xdg_value_skipped() {
    assert_eq!(parse_xdg_path(s("relative/path")), None);
    assert_eq!(parse_xdg_path(s("")), None);
    assert_eq!(parse_xdg_path(s("/absolute/path")), Some(s("/absolute/path")));
}

#[test]
fn relative_xdg_bin_home_falls_through_to_home() {
    let r = user_executable_directory_from(None, Some(s("relative/bin")), None, Some(s("/home/u")));
    assert_eq!(r, Some(s("/home/u/.local/bin")));
}

#[test]
fn executable_directory_override_wins() {
    let r = user_executable_directory_from(
        Some(s("my/bin")),
        Some(s("/xdg/bin")),
        Some(s("/xdg/data")),
        Some(s("/home/u")),
    );
    assert_eq!(r, Some(s("my/bin")));
}

#[test]
fn executable_directory_xdg_bin_home_used() {
    let r = user_executable_directory_from(
        None,
        Some(s("/xdg/bin")),
        Some(s("/xdg/data")),
        Some(s("/home/u")),
    );
    assert_eq!(r, Some(s("/xdg/bin")));
}

#[test]
fn executable_directory_sibling_of_xdg_data_home() {
    let r = user_executable_directory_from(None, None, Some(s("/xdg/data")), Some(s("/home/u")));
    assert_eq!(r, Some(s("/xdg/data/../bin")));
}

#[test]
fn executable_directory_nothing_without_home() {
    assert_eq!(user_executable_directory_from(None, None, None, None), None);
}

#[test]
fn legacy_state_dir_plain_and_windows_convention() {
    assert_eq!(
        legacy_state_dir_from_native(Some(s("/home/u/.local/share")), false),
        Some(s("/home/u/.local/share/uv"))
    );
    assert_eq!(
        legacy_state_dir_from_native(Some(s("C:/Users/u/AppData/Roaming")), true),
        Some(s("C:/Users/u/AppData/Roaming/uv/data"))
    );
    assert_eq!(legacy_state_dir_from_native(None, false), None);
}

#[test]
fn join_inserts_separator_only_where_needed() {
    assert_eq!(join_segment("/tmp/xdg", "uv"), s("/tmp/xdg/uv"));
    assert_eq!(join_segment("/tmp/xdg/", "uv"), s("/tmp/xdg/uv"));
    assert_eq!(join_segment("", "uv"), s("uv"));
}

#[test]
fn unreadable_directory_gives_no_count() {
    assert_eq!(count_cargo(None), None);
    assert_eq!(count_uv(None), None);
}

#[test]
fn zero_qualifying_entries_give_no_count() {
    assert_eq!(count_cargo(Some(vec![])), None);
    assert_eq!(count_uv(Some(vec![])), None);
    assert_eq!(
        count_uv(Some(vec![EntryKind::Other, EntryKind::Unknown])),
        None
    );
    assert_eq!(count_cargo(Some(vec![EntryKind::Unknown])), None);
}

#[test]
fn qualifying_entries_counted_exactly() {
    assert_eq!(
        count_uv(Some(vec![
            EntryKind::Directory,
            EntryKind::Directory,
            EntryKind::Directory,
            EntryKind::Directory,
        ])),
        Some(4)
    );
}

#[test]
fn undetermined_entries_skipped_not_counted() {
    assert_eq!(
        count_cargo(Some(vec![EntryKind::Other, EntryKind::Unknown])),
        Some(1)
    );
    assert_eq!(
        count_uv(Some(vec![EntryKind::Directory, EntryKind::Unknown])),
        Some(1)
    );
}

#[test]
fn uv_override_with_three_subdirectories_and_a_file() {
    let dir = uv_tools_dir_from_sources(Some(s("/tmp/mytools")), None, None);
    assert_eq!(dir, Some(s("/tmp/mytools")));
    let listing = vec![
        EntryKind::Directory,
        EntryKind::Directory,
        EntryKind::Directory,
        EntryKind::Other,
    ];
    assert_eq!(count_uv(Some(listing)), Some(3));
}

#[test]
fn uv_tools_under_absolute_xdg_data_home() {
    let state = join_segment("/tmp/xdg", "uv");
    assert_eq!(state, s("/tmp/xdg/uv"));
    let dir = uv_tools_dir_from_sources(None, Some(state), None);
    assert_eq!(dir, Some(s("/tmp/xdg/uv/tools")));
    let listing = vec![EntryKind::Directory, EntryKind::Directory];
    assert_eq!(count_uv(Some(listing)), Some(2));
}

#[test]
fn relative_xdg_data_home_and_no_legacy_directory() {
    assert_eq!(parse_xdg_path(s("relative/path")), None);
    assert_eq!(count_uv(None), None);
}

#[test]
fn cargo_bin_with_five_files() {
    let dir = cargo_bin_dir_from_home(Some(s("/tmp/cargo")));
    assert_eq!(dir, Some(s("/tmp/cargo/bin")));
    let listing = vec![
        EntryKind::Other,
        EntryKind::Other,
        EntryKind::Other,
        EntryKind::Other,
        EntryKind::Other,
    ];
    assert_eq!(count_cargo(Some(listing)), Some(5));
}

#[test]
fn live_resolution_lands_on_the_expected_leaf() {
    if let Some(p) = toolcount::uv::user_state_dir() {
        assert!(p.ends_with("/uv"));
    }
    if let Some(p) = toolcount::uv::legacy_user_state_dir() {
        assert!(p.ends_with("/uv"));
    }
    if let Some(p) = toolcount::cargo::cargo_bin_dir() {
        assert!(p.ends_with("/bin"));
    }
    if let Some(p) = toolcount::uv::uv_tools_dir(None) {
        assert!(p.ends_with("/tools"));
    }
    let claimed = toolcount::uv::uv_tools_dir(Some(String::from("/tmp/mytools")));
    assert_eq!(claimed, Some(String::from("/tmp/mytools")));
}

#[test]
fn cargo_home_unresolvable_gives_no_count() {
    assert_eq!(cargo_bin_dir_from_home(None), None);
    assert_eq!(count_cargo(None), None);
}
