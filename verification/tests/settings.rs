use fe_rs::dir_entry::DirEntry;
use fe_rs::navigation_state::NavigationState;
use fe_rs::settings_store::{default_state, load, validate, SettingsError};
use fe_rs::tab::Tab;
use fe_rs::working_directory::WorkingDirectory;

fn entry(path: &str, is_dir: bool) -> DirEntry {
    DirEntry { path: path.to_string(), is_dir, size: Some(12) }
}

fn stored() -> NavigationState {
    NavigationState {
        tabs: vec![
            Tab {
                cwd: WorkingDirectory {
                    path: "/a".to_string(),
                    children: vec![entry("/a/x", false), entry("/a/y", true)],
                    cursor: 1,
                },
                history_backward: vec![WorkingDirectory {
                    path: "/".to_string(),
                    children: vec![entry("/a", true)],
                    cursor: 0,
                }],
                history_forward: vec![WorkingDirectory {
                    path: "/a/y".to_string(),
                    children: vec![],
                    cursor: 3,
                }],
                activation_pending: true,
            },
            Tab {
                cwd: WorkingDirectory { path: "/b".to_string(), children: vec![], cursor: 0 },
                history_backward: vec![],
                history_forward: vec![],
                activation_pending: false,
            },
        ],
        active_tab: 1,
    }
}

fn broken() -> NavigationState {
    let mut state = stored();
    state.active_tab = 2;
    state
}

#[test]
fn the_default_state_is_one_tab_at_the_root() {
    let state = default_state();
    assert_eq!(state.tabs.len(), 1);
    assert_eq!(state.active_tab, 0);
    assert_eq!(state.tabs[0].cwd.path, "/");
    assert!(state.tabs[0].cwd.children.is_empty());
    assert_eq!(state.tabs[0].cwd.cursor, 0);
    assert!(state.tabs[0].history_backward.is_empty());
    assert!(state.tabs[0].history_forward.is_empty());
    assert!(!state.tabs[0].activation_pending);
    assert!(state.is_well_formed());
}

#[test]
fn a_sound_stored_state_is_loaded_as_it_is() {
    assert_eq!(load(Ok(stored())), stored());
    assert_eq!(validate(Ok(stored())), Ok(stored()));
}

#[test]
fn a_missing_file_gives_the_default_state() {
    assert_eq!(load(Err(SettingsError::NotFound)), default_state());
    assert_eq!(validate(Err(SettingsError::NotFound)), Err(SettingsError::NotFound));
}

#[test]
fn a_parse_failure_gives_the_default_state() {
    assert_eq!(load(Err(SettingsError::ParseFailure)), default_state());
    assert_eq!(validate(Err(SettingsError::ParseFailure)), Err(SettingsError::ParseFailure));
}

#[test]
fn a_write_failure_is_handed_on() {
    assert_eq!(validate(Err(SettingsError::WriteFailure)), Err(SettingsError::WriteFailure));
    assert_eq!(load(Err(SettingsError::WriteFailure)), default_state());
}

#[test]
fn a_stored_state_that_is_not_well_formed_is_a_parse_failure() {
    assert_eq!(validate(Ok(broken())), Err(SettingsError::ParseFailure));
    assert_eq!(load(Ok(broken())), default_state());
    let no_tabs = NavigationState { tabs: vec![], active_tab: 0 };
    assert_eq!(validate(Ok(no_tabs)), Err(SettingsError::ParseFailure));
    let mut stray = stored();
    stray.tabs[0].cwd.cursor = 2;
    assert_eq!(load(Ok(stray)), default_state());
}
