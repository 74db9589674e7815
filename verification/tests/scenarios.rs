use fe_rs::action::{Action, Effect};
use fe_rs::dir_entry::DirEntry;
use fe_rs::directory_cache::{list, DirectoryError};
use fe_rs::home::Home;
use fe_rs::navigation_state::NavigationState;
use fe_rs::settings_store::{default_state, SettingsError};
use fe_rs::tab::Tab;
use fe_rs::working_directory::WorkingDirectory;

fn fresh() -> NavigationState {
    NavigationState {
        tabs: vec![Tab {
            cwd: WorkingDirectory { path: "/".to_string(), children: vec![], cursor: 0 },
            history_backward: vec![],
            history_forward: vec![],
            activation_pending: false,
        }],
        active_tab: 0,
    }
}

fn copy(state: &NavigationState) -> NavigationState {
    NavigationState { tabs: state.tabs.clone(), active_tab: state.active_tab }
}

fn a_and_b() -> Vec<DirEntry> {
    vec![
        DirEntry { path: "/a".to_string(), is_dir: true, size: None },
        DirEntry { path: "/b".to_string(), is_dir: false, size: None },
    ]
}

#[test]
fn default_state_is_the_fresh_state() {
    assert_eq!(default_state(), fresh());
}

#[test]
fn move_down_then_activate_a_file() {
    let mut state = fresh();
    assert!(state.needs_listing());
    assert!(state.accept_listing(a_and_b()));
    assert_eq!(state.tabs[0].cwd.children, a_and_b());
    assert_eq!(state.tabs[0].cwd.cursor, 0);

    let moved = state.apply(Action::MoveDown);
    assert_eq!(moved.effect, Effect::Nothing);
    assert!(moved.persist);
    assert_eq!(state.tabs[0].cwd.cursor, 1);

    let before = copy(&state);
    let asked = state.apply(Action::Activate);
    assert_eq!(asked.effect, Effect::Nothing);
    assert!(state.tabs[0].activation_pending);

    let resolved = state.resolve_activation();
    assert_eq!(resolved.effect, Effect::LaunchPath("/b".to_string()));
    assert_eq!(state.tabs[0].cwd.path, "/");
    assert_eq!(state, before);
}

#[test]
fn activate_a_directory_descends_into_it() {
    let mut state = fresh();
    state.accept_listing(a_and_b());
    let left = state.tabs[0].cwd.clone();

    state.apply(Action::Activate);
    let resolved = state.resolve_activation();

    assert_eq!(resolved.effect, Effect::Nothing);
    assert!(resolved.persist);
    assert_eq!(state.tabs[0].history_backward, vec![left]);
    assert_eq!(state.tabs[0].history_backward[0].path, "/");
    assert_eq!(
        state.tabs[0].cwd,
        WorkingDirectory { path: "/a".to_string(), children: vec![], cursor: 0 }
    );
    assert!(!state.tabs[0].activation_pending);
    assert!(state.needs_listing());
}

#[test]
fn descending_inherits_the_cursor() {
    let mut state = fresh();
    state.accept_listing(vec![
        DirEntry { path: "/x".to_string(), is_dir: false, size: None },
        DirEntry { path: "/y".to_string(), is_dir: true, size: None },
    ]);
    state.apply(Action::MoveDown);
    state.apply(Action::Activate);
    state.resolve_activation();
    assert_eq!(
        state.tabs[0].cwd,
        WorkingDirectory { path: "/y".to_string(), children: vec![], cursor: 1 }
    );
}

#[test]
fn new_tab_is_a_copy_and_active_index_stays() {
    let mut state = fresh();
    let outcome = state.apply(Action::TabNew);
    assert!(outcome.persist);
    assert_eq!(state.tabs.len(), 2);
    assert_eq!(state.tabs[1], state.tabs[0]);
    assert_eq!(state.tabs[1], fresh().tabs[0]);
    assert_eq!(state.active_tab, 0);
}

#[test]
fn new_tab_copies_history_too() {
    let mut state = fresh();
    state.accept_listing(a_and_b());
    state.apply(Action::Activate);
    state.resolve_activation();
    state.apply(Action::TabNew);
    assert_eq!(state.tabs.len(), 2);
    assert_eq!(state.tabs[1], state.tabs[0]);
    assert_eq!(state.tabs[1].history_backward.len(), 1);
}

#[test]
fn missing_directory_is_an_error_not_an_empty_listing() {
    assert_eq!(list(Err(DirectoryError::NotFound)), Err(DirectoryError::NotFound));
    assert_ne!(list(Err(DirectoryError::NotFound)), Ok(vec![]));

    let mut home = Home::new(Err(SettingsError::NotFound));
    assert_eq!(home.listing_request(), Some("/".to_string()));
    let persist = home.accept_listing(Err(DirectoryError::NotFound));
    assert!(!persist);
    assert_eq!(home.listing_error, Some(DirectoryError::NotFound));
    let picture = home.view_model();
    assert_eq!(picture.error, Some(DirectoryError::NotFound));
    assert!(picture.rows.is_empty());
}
