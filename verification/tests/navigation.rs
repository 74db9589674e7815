use fe_rs::action::{Action, Effect};
use fe_rs::dir_entry::DirEntry;
use fe_rs::navigation_state::NavigationState;
use fe_rs::tab::Tab;
use fe_rs::working_directory::WorkingDirectory;

fn file(path: &str) -> DirEntry {
    DirEntry { path: path.to_string(), is_dir: false, size: None }
}

fn dir(path: &str) -> DirEntry {
    DirEntry { path: path.to_string(), is_dir: true, size: None }
}

fn listed(path: &str, children: Vec<DirEntry>, cursor: usize) -> WorkingDirectory {
    WorkingDirectory { path: path.to_string(), children, cursor }
}

fn tab_at(cwd: WorkingDirectory) -> Tab {
    Tab { cwd, history_backward: vec![], history_forward: vec![], activation_pending: false }
}

fn copy(state: &NavigationState) -> NavigationState {
    NavigationState { tabs: state.tabs.clone(), active_tab: state.active_tab }
}

fn three_tabs(active_tab: usize) -> NavigationState {
    NavigationState {
        tabs: vec![
            tab_at(listed("/a", vec![], 0)),
            tab_at(listed("/b", vec![], 0)),
            tab_at(listed("/c", vec![], 0)),
        ],
        active_tab,
    }
}

#[test]
fn rooted_at_makes_one_unlisted_tab() {
    let state = NavigationState::rooted_at("/home".to_string());
    assert_eq!(state.tabs, vec![tab_at(listed("/home", vec![], 0))]);
    assert_eq!(state.active_tab, 0);
    assert!(state.is_well_formed());
    assert!(state.needs_listing());
}

#[test]
fn cursor_stays_on_a_row_under_any_moves() {
    let mut state = NavigationState::rooted_at("/".to_string());
    state.accept_listing(vec![file("/a"), file("/b"), file("/c")]);
    let moves = [
        Action::MoveUp,
        Action::MoveDown,
        Action::MoveDown,
        Action::MoveDown,
        Action::MoveDown,
        Action::MoveUp,
        Action::MoveDown,
        Action::MoveDown,
        Action::MoveUp,
        Action::MoveUp,
        Action::MoveUp,
        Action::MoveUp,
    ];
    let expected = [0, 1, 2, 2, 2, 1, 2, 2, 1, 0, 0, 0];
    for (action, cursor) in moves.iter().zip(expected.iter()) {
        state.apply(*action);
        assert_eq!(state.tabs[0].cwd.cursor, *cursor);
        assert!(state.tabs[0].cwd.cursor < state.tabs[0].cwd.children.len());
        assert!(state.is_well_formed());
    }
}

#[test]
fn move_down_reports_whether_it_moved() {
    let mut state = NavigationState::rooted_at("/".to_string());
    state.accept_listing(vec![file("/a"), file("/b")]);
    assert!(state.apply(Action::MoveDown).persist);
    assert!(!state.apply(Action::MoveDown).persist);
    assert_eq!(state.tabs[0].cwd.cursor, 1);
}

#[test]
fn move_down_on_an_unlisted_directory_changes_nothing() {
    let mut state = NavigationState::rooted_at("/".to_string());
    let before = copy(&state);
    let outcome = state.apply(Action::MoveDown);
    assert!(!outcome.persist);
    assert_eq!(state, before);
}

#[test]
fn move_down_pulls_a_stray_cursor_onto_the_last_row() {
    let mut state = NavigationState {
        tabs: vec![tab_at(listed("/", vec![file("/a"), file("/b")], 7))],
        active_tab: 0,
    };
    assert!(!state.is_well_formed());
    state.apply(Action::MoveDown);
    assert_eq!(state.tabs[0].cwd.cursor, 1);
    assert!(state.is_well_formed());
}

#[test]
fn move_up_at_the_top_changes_nothing() {
    let mut state = NavigationState::rooted_at("/".to_string());
    state.accept_listing(vec![file("/a"), file("/b")]);
    let before = copy(&state);
    let outcome = state.apply(Action::MoveUp);
    assert!(!outcome.persist);
    assert_eq!(state, before);
}

#[test]
fn move_up_steps_back_one_row() {
    let mut state = NavigationState {
        tabs: vec![tab_at(listed("/", vec![file("/a"), file("/b")], 1))],
        active_tab: 0,
    };
    assert!(state.apply(Action::MoveUp).persist);
    assert_eq!(state.tabs[0].cwd.cursor, 0);
}

#[test]
fn moves_touch_only_the_active_tab() {
    let mut state = NavigationState {
        tabs: vec![
            tab_at(listed("/a", vec![file("/a/1"), file("/a/2")], 0)),
            tab_at(listed("/b", vec![file("/b/1"), file("/b/2")], 0)),
        ],
        active_tab: 1,
    };
    state.apply(Action::MoveDown);
    assert_eq!(state.tabs[0].cwd.cursor, 0);
    assert_eq!(state.tabs[1].cwd.cursor, 1);
}

#[test]
fn tick_and_help_change_nothing() {
    let mut state = three_tabs(1);
    let before = copy(&state);
    for action in [Action::Tick, Action::Help] {
        let outcome = state.apply(action);
        assert_eq!(outcome.effect, Effect::Nothing);
        assert!(!outcome.persist);
        assert_eq!(state, before);
    }
}

#[test]
fn activate_sets_the_flag_once() {
    let mut state = NavigationState::rooted_at("/".to_string());
    assert!(state.apply(Action::Activate).persist);
    assert!(state.tabs[0].activation_pending);
    assert!(!state.apply(Action::Activate).persist);
    assert!(state.tabs[0].activation_pending);
}

#[test]
fn resolving_without_a_pending_activation_changes_nothing() {
    let mut state = NavigationState::rooted_at("/".to_string());
    state.accept_listing(vec![dir("/a")]);
    let before = copy(&state);
    let outcome = state.resolve_activation();
    assert_eq!(outcome.effect, Effect::Nothing);
    assert!(!outcome.persist);
    assert_eq!(state, before);
}

#[test]
fn resolving_on_an_unlisted_directory_only_clears_the_flag() {
    let mut state = NavigationState::rooted_at("/".to_string());
    state.apply(Action::Activate);
    let outcome = state.resolve_activation();
    assert_eq!(outcome.effect, Effect::Nothing);
    assert!(outcome.persist);
    assert_eq!(state, NavigationState::rooted_at("/".to_string()));
}

#[test]
fn back_then_forward_restores_the_directory() {
    let mut state = NavigationState::rooted_at("/".to_string());
    state.accept_listing(vec![file("/x"), dir("/a")]);
    state.apply(Action::MoveDown);
    state.apply(Action::Activate);
    state.resolve_activation();
    state.accept_listing(vec![file("/a/1"), file("/a/2"), file("/a/3")]);
    state.apply(Action::MoveDown);
    state.apply(Action::MoveDown);
    let before = copy(&state);
    assert_eq!(before.tabs[0].cwd.cursor, 2);

    assert!(state.apply(Action::NavigateBack).persist);
    assert_eq!(state.tabs[0].cwd, listed("/", vec![file("/x"), dir("/a")], 1));
    assert_eq!(state.tabs[0].history_backward, vec![]);
    assert_eq!(state.tabs[0].history_forward, vec![before.tabs[0].cwd.clone()]);

    assert!(state.apply(Action::NavigateForward).persist);
    assert_eq!(state, before);
    assert_eq!(
        state.tabs[0].cwd,
        listed("/a", vec![file("/a/1"), file("/a/2"), file("/a/3")], 2)
    );
}

#[test]
fn back_with_an_empty_history_changes_nothing() {
    let mut state = NavigationState::rooted_at("/".to_string());
    let before = copy(&state);
    assert!(!state.apply(Action::NavigateBack).persist);
    assert_eq!(state, before);
    assert!(!state.apply(Action::NavigateForward).persist);
    assert_eq!(state, before);
}

#[test]
fn descending_keeps_the_forward_history() {
    let mut state = NavigationState::rooted_at("/".to_string());
    state.accept_listing(vec![dir("/a"), dir("/b")]);
    state.apply(Action::Activate);
    state.resolve_activation();
    state.apply(Action::NavigateBack);
    assert_eq!(state.tabs[0].history_forward.len(), 1);
    state.apply(Action::MoveDown);
    state.apply(Action::Activate);
    state.resolve_activation();
    assert_eq!(state.tabs[0].cwd.path, "/b");
    assert_eq!(state.tabs[0].history_forward.len(), 1);
    assert_eq!(state.tabs[0].history_forward[0].path, "/a");
}

#[test]
fn parent_directory_goes_up_and_resets_the_cursor() {
    let mut state = NavigationState {
        tabs: vec![tab_at(listed("/a/b", vec![file("/a/b/1"), file("/a/b/2")], 1))],
        active_tab: 0,
    };
    let left = state.tabs[0].cwd.clone();
    let outcome = state.apply(Action::ParentDirectory);
    assert_eq!(outcome.effect, Effect::Nothing);
    assert!(outcome.persist);
    assert_eq!(state.tabs[0].cwd, listed("/a", vec![], 0));
    assert_eq!(state.tabs[0].history_backward, vec![left]);
    assert!(state.needs_listing());
}

#[test]
fn parent_directory_at_the_root_changes_nothing() {
    let mut state = NavigationState::rooted_at("/".to_string());
    let before = copy(&state);
    assert!(!state.apply(Action::ParentDirectory).persist);
    assert_eq!(state, before);
}

#[test]
fn ascend_takes_the_parent_it_is_given() {
    let mut state = NavigationState {
        tabs: vec![tab_at(listed("/a/b", vec![file("/a/b/1")], 0))],
        active_tab: 0,
    };
    let before = copy(&state);
    assert!(!state.ascend(None));
    assert_eq!(state, before);
    assert!(state.ascend(Some("/elsewhere".to_string())));
    assert_eq!(state.tabs[0].cwd, listed("/elsewhere", vec![], 0));
    assert_eq!(state.tabs[0].history_backward, vec![before.tabs[0].cwd.clone()]);
}

#[test]
fn tab_prev_and_next_do_not_wrap() {
    let mut state = three_tabs(0);
    assert!(!state.apply(Action::TabPrev).persist);
    assert_eq!(state.active_tab, 0);
    assert!(state.apply(Action::TabNext).persist);
    assert_eq!(state.active_tab, 1);
    assert!(state.apply(Action::TabNext).persist);
    assert_eq!(state.active_tab, 2);
    assert!(!state.apply(Action::TabNext).persist);
    assert_eq!(state.active_tab, 2);
    assert!(state.apply(Action::TabPrev).persist);
    assert_eq!(state.active_tab, 1);
    assert_eq!(state.tabs, three_tabs(0).tabs);
}

#[test]
fn closing_the_only_tab_leaves_it() {
    let mut state = NavigationState::rooted_at("/".to_string());
    let before = copy(&state);
    let outcome = state.apply(Action::TabClose);
    assert!(!outcome.persist);
    assert_eq!(state.tabs.len(), 1);
    assert_eq!(state, before);
}

#[test]
fn closing_the_last_tab_steps_the_index_back() {
    let mut state = three_tabs(2);
    assert!(state.apply(Action::TabClose).persist);
    assert_eq!(state.active_tab, 1);
    assert_eq!(
        state.tabs,
        vec![tab_at(listed("/a", vec![], 0)), tab_at(listed("/b", vec![], 0))]
    );
}

#[test]
fn closing_a_middle_tab_keeps_the_index() {
    let mut state = three_tabs(1);
    assert!(state.apply(Action::TabClose).persist);
    assert_eq!(state.active_tab, 1);
    assert_eq!(
        state.tabs,
        vec![tab_at(listed("/a", vec![], 0)), tab_at(listed("/c", vec![], 0))]
    );
}

#[test]
fn closing_tabs_never_empties_the_state() {
    let mut state = three_tabs(0);
    for _ in 0..5 {
        state.apply(Action::TabClose);
        assert!(!state.tabs.is_empty());
        assert!(state.active_tab < state.tabs.len());
    }
    assert_eq!(state.tabs, vec![tab_at(listed("/c", vec![], 0))]);
}

#[test]
fn explorer_and_shell_ask_the_launcher_and_change_nothing() {
    let mut state = three_tabs(1);
    let before = copy(&state);
    let explorer = state.apply(Action::OpenInSystemExplorer);
    assert_eq!(explorer.effect, Effect::OpenContainingFolder("/b".to_string()));
    assert!(!explorer.persist);
    let shell = state.apply(Action::OpenShellHere);
    assert_eq!(shell.effect, Effect::OpenShellAt("/b".to_string()));
    assert!(!shell.persist);
    assert_eq!(state, before);
}

#[test]
fn listing_is_taken_only_where_it_is_needed() {
    let mut state = NavigationState::rooted_at("/".to_string());
    assert!(state.accept_listing(vec![file("/a")]));
    assert!(!state.needs_listing());
    assert!(!state.accept_listing(vec![file("/b"), file("/c")]));
    assert_eq!(state.tabs[0].cwd.children, vec![file("/a")]);
}

#[test]
fn an_empty_listing_changes_nothing() {
    let mut state = NavigationState::rooted_at("/".to_string());
    let before = copy(&state);
    assert!(!state.accept_listing(vec![]));
    assert_eq!(state, before);
    assert!(state.needs_listing());
}

#[test]
fn a_listing_pulls_the_cursor_back() {
    let mut state = NavigationState {
        tabs: vec![tab_at(listed("/a", vec![], 5))],
        active_tab: 0,
    };
    assert!(state.is_well_formed());
    assert!(state.accept_listing(vec![file("/a/1"), file("/a/2")]));
    assert_eq!(state.tabs[0].cwd.cursor, 1);
    assert!(state.is_well_formed());
}

#[test]
fn a_state_without_an_active_tab_is_left_alone() {
    let mut state = three_tabs(9);
    assert!(!state.is_well_formed());
    assert!(state.active().is_none());
    let before = copy(&state);
    for action in [
        Action::MoveDown,
        Action::MoveUp,
        Action::Activate,
        Action::NavigateBack,
        Action::NavigateForward,
        Action::ParentDirectory,
        Action::TabPrev,
        Action::TabNext,
        Action::TabNew,
        Action::TabClose,
        Action::OpenInSystemExplorer,
        Action::OpenShellHere,
    ] {
        let outcome = state.apply(action);
        assert_eq!(outcome.effect, Effect::Nothing);
        assert!(!outcome.persist);
        assert_eq!(state, before);
    }
}

#[test]
fn well_formedness_looks_at_every_directory() {
    assert!(three_tabs(2).is_well_formed());
    assert!(!three_tabs(3).is_well_formed());
    assert!(!NavigationState { tabs: vec![], active_tab: 0 }.is_well_formed());
    let stray = listed("/", vec![file("/a")], 1);
    let mut in_history = tab_at(listed("/x", vec![], 0));
    in_history.history_backward.push(stray.clone());
    assert!(!NavigationState { tabs: vec![in_history], active_tab: 0 }.is_well_formed());
    let mut in_forward = tab_at(listed("/x", vec![], 0));
    in_forward.history_forward.push(stray.clone());
    assert!(!NavigationState { tabs: vec![in_forward], active_tab: 0 }.is_well_formed());
    assert!(!NavigationState { tabs: vec![tab_at(stray)], active_tab: 0 }.is_well_formed());
}
