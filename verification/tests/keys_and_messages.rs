//! Key-name parsing, message construction, and transition queries.

use sketchpad::keyboard_event_args::{KeyboardEventArgs, VirtualKeyCode};
use sketchpad::modes::{Idle, State, StateKind, Transition};
use sketchpad::msg::{ButtonType, Msg};

#[test]
fn single_character_names_map_to_their_keys() {
    assert_eq!(VirtualKeyCode::from_text("A"), Some(VirtualKeyCode::A));
    assert_eq!(VirtualKeyCode::from_text("z"), Some(VirtualKeyCode::z));
    assert_eq!(VirtualKeyCode::from_text("Q"), Some(VirtualKeyCode::Q));
    assert_eq!(VirtualKeyCode::from_text("m"), Some(VirtualKeyCode::m));
    assert_eq!(VirtualKeyCode::from_text("0"), Some(VirtualKeyCode::Key0));
    assert_eq!(VirtualKeyCode::from_text("5"), Some(VirtualKeyCode::Key5));
    assert_eq!(VirtualKeyCode::from_text("9"), Some(VirtualKeyCode::Key9));
}

#[test]
fn control_key_names_map_to_their_keys() {
    assert_eq!(VirtualKeyCode::from_text("Enter"), Some(VirtualKeyCode::Enter));
    assert_eq!(VirtualKeyCode::from_text("Backspace"), Some(VirtualKeyCode::Backspace));
    assert_eq!(VirtualKeyCode::from_text("Escape"), Some(VirtualKeyCode::Escape));
    assert_eq!(VirtualKeyCode::from_text("Shift"), Some(VirtualKeyCode::Shift));
    assert_eq!(VirtualKeyCode::from_text("Control"), Some(VirtualKeyCode::Control));
    assert_eq!(VirtualKeyCode::from_text("Alt"), Some(VirtualKeyCode::Alt));
}

#[test]
fn arrow_and_space_names_map_to_their_keys() {
    assert_eq!(VirtualKeyCode::from_text("ArrowLeft"), Some(VirtualKeyCode::Left));
    assert_eq!(VirtualKeyCode::from_text("ArrowRight"), Some(VirtualKeyCode::Right));
    assert_eq!(VirtualKeyCode::from_text("ArrowUp"), Some(VirtualKeyCode::Up));
    assert_eq!(VirtualKeyCode::from_text("ArrowDown"), Some(VirtualKeyCode::Down));
    assert_eq!(VirtualKeyCode::from_text(" "), Some(VirtualKeyCode::Space));
}

#[test]
fn unknown_key_names_yield_no_semantic_key() {
    assert_eq!(VirtualKeyCode::from_text(""), None);
    assert_eq!(VirtualKeyCode::from_text("Meta"), None);
    assert_eq!(VirtualKeyCode::from_text("AB"), None);
    assert_eq!(VirtualKeyCode::from_text("escape"), None);
    assert_eq!(VirtualKeyCode::from_text("?"), None);
    assert_eq!(VirtualKeyCode::from_text("ArrowBack"), None);
    assert_eq!(VirtualKeyCode::from_text("Space"), None);
}

#[test]
fn from_key_press_carries_the_modifiers() {
    let m = Msg::from_key_press("Escape", true, false);
    assert_eq!(
        m,
        Msg::KeyPressed(KeyboardEventArgs {
            shift_pressed: true,
            control_pressed: false,
            key: Some(VirtualKeyCode::Escape),
        })
    );
    let unknown = Msg::from_key_press("F13", false, true);
    assert_eq!(
        unknown,
        Msg::KeyPressed(KeyboardEventArgs {
            shift_pressed: false,
            control_pressed: true,
            key: None,
        })
    );
}

#[test]
fn pressing_builds_a_bare_key_press() {
    let args = KeyboardEventArgs::pressing(VirtualKeyCode::Escape);
    assert_eq!(
        args,
        KeyboardEventArgs {
            shift_pressed: false,
            control_pressed: false,
            key: Some(VirtualKeyCode::Escape),
        }
    );
    assert_eq!(KeyboardEventArgs::default().key, None);
}

#[test]
fn transition_queries_report_their_target() {
    let t = Transition::ChangeState(State::Idle(Idle));
    assert!(t.changes_to(StateKind::Idle));
    assert!(!t.changes_to(StateKind::AddLine));
    assert!(!t.does_nothing());
    let n = Transition::DoNothing;
    assert!(n.does_nothing());
    assert!(!n.changes_to(StateKind::Idle));
}

#[test]
fn cursor_hint_tracks_the_mode() {
    let idle = State::Idle(Idle);
    assert_eq!(idle.get_cursor(), "default");
    let mut m = sketchpad::model::Model::new();
    m.on_button_clicked(&ButtonType::Line);
    assert_eq!(m.current_state().get_cursor(), "crosshair");
}
