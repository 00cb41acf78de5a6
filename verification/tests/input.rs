use rustcycles::client::{quality_for, should_log_ui_message, MessageDirection, Quality};
use rustcycles::game::{grant_request, player_request, PlayerRequest, PlayerState};
use rustcycles::input::{
    button_for_key, button_for_mouse, Button, Buttons, ClientControls, Effect, Key, MouseButton,
};

#[test]
fn buttons_release_and_names() {
    let mut b = Buttons::default();
    assert_eq!(b.pressed_names(), "");
    b.set(Button::Fire1, true);
    b.set(Button::Zoom, true);
    b.set(Button::Screenshot, true);
    assert!(b.fire1 && b.zoom && b.screenshot);
    assert_eq!(b.pressed_names(), "fire1 zoom screenshot ");
    b.set(Button::Zoom, false);
    assert_eq!(b.pressed_names(), "fire1 screenshot ");
    b.release_all_keys();
    assert_eq!(b, Buttons::default());
}

#[test]
fn keys_and_mouse_buttons_map_to_buttons() {
    assert_eq!(button_for_key(Key::KeyW), Some(Button::Forward));
    assert_eq!(button_for_key(Key::ShiftLeft), Some(Button::Down));
    assert_eq!(button_for_key(Key::Tab), Some(Button::Score));
    assert_eq!(button_for_key(Key::Escape), None);
    assert_eq!(button_for_mouse(MouseButton::Left), Some(Button::Fire1));
    assert_eq!(button_for_mouse(MouseButton::Other(8)), Some(Button::Marker1));
    assert_eq!(button_for_mouse(MouseButton::Other(9)), Some(Button::Marker2));
    assert_eq!(button_for_mouse(MouseButton::Other(10)), None);
}

#[test]
fn console_toggling_restores_grab() {
    let mut c = ClientControls::new();
    assert_eq!(c.mouse_input(MouseButton::Left, true), vec![Effect::SetMouseGrab(true), Effect::SendInput]);
    assert!(c.mouse_grabbed && c.buttons.fire1);

    assert_eq!(c.keyboard_input(Key::Backquote, true), vec![Effect::OpenConsole, Effect::SetMouseGrab(false)]);
    assert!(c.console_open && !c.mouse_grabbed && !c.buttons.fire1);

    // Game keys and clicks are ignored while the console is open.
    assert!(c.keyboard_input(Key::KeyW, true).is_empty());
    assert!(!c.buttons.forward);
    assert!(c.mouse_input(MouseButton::Left, true).is_empty());
    assert!(!c.mouse_motion_allowed());

    assert_eq!(
        c.keyboard_input(Key::Escape, true),
        vec![Effect::CloseConsole, Effect::SetMouseGrab(true), Effect::SendInput]
    );
    assert!(!c.console_open && c.mouse_grabbed);
    assert!(c.mouse_motion_allowed());
}

#[test]
fn escape_and_shift() {
    let mut c = ClientControls::new();
    c.mouse_input(MouseButton::Right, true);
    // ESC alone ungrabs.
    assert_eq!(c.keyboard_input(Key::Escape, true), vec![Effect::SetMouseGrab(false), Effect::SendInput]);
    assert!(!c.mouse_grabbed);
    // Shift + ESC opens the console; shift itself is also "down" in game.
    assert_eq!(c.keyboard_input(Key::ShiftLeft, true), vec![Effect::SendInput]);
    assert!(c.shift_pressed && c.buttons.down);
    assert_eq!(c.keyboard_input(Key::Escape, true), vec![Effect::OpenConsole, Effect::SetMouseGrab(false)]);
    assert!(c.console_open);
    assert!(!c.was_mouse_grabbed);
}

#[test]
fn focus_changes() {
    let mut c = ClientControls::new();
    assert_eq!(c.focused(true, true), vec![Effect::SetMouseGrab(true)]);
    assert!(c.mouse_grabbed);
    assert_eq!(c.focused(false, true), vec![Effect::SetMouseGrab(false)]);
    assert!(!c.mouse_grabbed);
    assert!(c.focused(true, false).is_empty());
    c.keyboard_input(Key::Backquote, true);
    assert!(c.focused(true, true).is_empty());
}

#[test]
fn join_and_observe_requests() {
    let mut b = Buttons::default();
    assert_eq!(player_request(PlayerState::Observing, &b), None);
    b.fire1 = true;
    assert_eq!(player_request(PlayerState::Observing, &b), Some(PlayerRequest::Join));
    assert_eq!(player_request(PlayerState::Playing, &b), None);
    b.fire2 = true;
    assert_eq!(player_request(PlayerState::Playing, &b), Some(PlayerRequest::Observe));
    assert_eq!(player_request(PlayerState::Spectating { spectatee_index: 3 }, &b), None);
    assert_eq!(grant_request(PlayerRequest::Join), PlayerState::Playing);
    assert_eq!(grant_request(PlayerRequest::Observe), PlayerState::Observing);
}

#[test]
fn ui_log_filter_and_quality() {
    assert!(!should_log_ui_message(false, true, true, true, MessageDirection::ToWidget, false));
    assert!(should_log_ui_message(true, true, true, false, MessageDirection::ToWidget, false));
    assert!(!should_log_ui_message(true, false, true, true, MessageDirection::ToWidget, false));
    assert!(should_log_ui_message(true, false, true, true, MessageDirection::FromWidget, false));
    assert!(!should_log_ui_message(true, true, true, false, MessageDirection::FromWidget, true));
    assert_eq!(quality_for(0), (Quality::Low, true));
    assert_eq!(quality_for(1), (Quality::Medium, true));
    assert_eq!(quality_for(2), (Quality::High, true));
    assert_eq!(quality_for(7), (Quality::Low, false));
    assert_eq!(quality_for(-1), (Quality::Low, false));
}
