use fe_rs::action::Action;
use fe_rs::input_controller::{resolve, Binding, KeyBindings, KeyCode, KeyInput};

fn plain(code: KeyCode) -> KeyInput {
    KeyInput { code, alt: false }
}

fn with_alt(code: KeyCode) -> KeyInput {
    KeyInput { code, alt: true }
}

#[test]
fn arrows_and_letters_share_bindings() {
    let table = KeyBindings::standard();
    assert_eq!(resolve(plain(KeyCode::Down), &table), Some(Action::MoveDown));
    assert_eq!(resolve(plain(KeyCode::Char('j')), &table), Some(Action::MoveDown));
    assert_eq!(resolve(plain(KeyCode::Up), &table), Some(Action::MoveUp));
    assert_eq!(resolve(plain(KeyCode::Char('k')), &table), Some(Action::MoveUp));
    assert_eq!(resolve(plain(KeyCode::Left), &table), Some(Action::TabPrev));
    assert_eq!(resolve(plain(KeyCode::Char('h')), &table), Some(Action::TabPrev));
    assert_eq!(resolve(plain(KeyCode::Right), &table), Some(Action::TabNext));
    assert_eq!(resolve(plain(KeyCode::Char('l')), &table), Some(Action::TabNext));
}

#[test]
fn alt_selects_history_and_parent() {
    let table = KeyBindings::standard();
    assert_eq!(resolve(with_alt(KeyCode::Up), &table), Some(Action::ParentDirectory));
    assert_eq!(resolve(with_alt(KeyCode::Char('k')), &table), Some(Action::ParentDirectory));
    assert_eq!(resolve(with_alt(KeyCode::Left), &table), Some(Action::NavigateBack));
    assert_eq!(resolve(with_alt(KeyCode::Char('h')), &table), Some(Action::NavigateBack));
    assert_eq!(resolve(with_alt(KeyCode::Right), &table), Some(Action::NavigateForward));
    assert_eq!(resolve(with_alt(KeyCode::Char('l')), &table), Some(Action::NavigateForward));
}

#[test]
fn alt_is_ignored_where_it_selects_nothing() {
    let table = KeyBindings::standard();
    assert_eq!(resolve(with_alt(KeyCode::Down), &table), Some(Action::MoveDown));
    assert_eq!(resolve(with_alt(KeyCode::Char('j')), &table), Some(Action::MoveDown));
    assert_eq!(resolve(with_alt(KeyCode::Enter), &table), Some(Action::Activate));
    assert_eq!(resolve(with_alt(KeyCode::Char('t')), &table), Some(Action::TabNew));
}

#[test]
fn letters_open_and_close() {
    let table = KeyBindings::standard();
    assert_eq!(resolve(plain(KeyCode::Enter), &table), Some(Action::Activate));
    assert_eq!(resolve(plain(KeyCode::Char('e')), &table), Some(Action::OpenInSystemExplorer));
    assert_eq!(resolve(plain(KeyCode::Char('s')), &table), Some(Action::OpenShellHere));
    assert_eq!(resolve(plain(KeyCode::Char('t')), &table), Some(Action::TabNew));
    assert_eq!(resolve(plain(KeyCode::Char('x')), &table), Some(Action::TabClose));
}

#[test]
fn unbound_keys_give_no_action() {
    let table = KeyBindings::standard();
    assert_eq!(resolve(plain(KeyCode::Other), &table), None);
    assert_eq!(resolve(with_alt(KeyCode::Other), &table), None);
    assert_eq!(resolve(plain(KeyCode::Char('q')), &table), None);
    assert_eq!(resolve(plain(KeyCode::Char('J')), &table), None);
    assert_eq!(resolve(plain(KeyCode::Char('j')), &KeyBindings { entries: vec![] }), None);
}

#[test]
fn the_first_line_that_applies_wins() {
    let table = KeyBindings {
        entries: vec![
            Binding { code: KeyCode::Char('a'), alt: true, action: Action::TabNew },
            Binding { code: KeyCode::Char('a'), alt: false, action: Action::TabClose },
            Binding { code: KeyCode::Char('a'), alt: false, action: Action::Help },
            Binding { code: KeyCode::Other, alt: false, action: Action::Tick },
        ],
    };
    assert_eq!(resolve(with_alt(KeyCode::Char('a')), &table), Some(Action::TabNew));
    assert_eq!(resolve(plain(KeyCode::Char('a')), &table), Some(Action::TabClose));
    assert_eq!(resolve(plain(KeyCode::Other), &table), Some(Action::Tick));
    assert_eq!(resolve(plain(KeyCode::Down), &table), None);
}

#[test]
fn a_line_that_asks_for_alt_needs_it() {
    let table = KeyBindings {
        entries: vec![Binding { code: KeyCode::Up, alt: true, action: Action::ParentDirectory }],
    };
    assert_eq!(resolve(plain(KeyCode::Up), &table), None);
    assert_eq!(resolve(with_alt(KeyCode::Up), &table), Some(Action::ParentDirectory));
}
