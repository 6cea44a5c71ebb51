use nvim_gtk_shell::action::{Action, Failure, MouseKey, NvimRequest};
use nvim_gtk_shell::mouse::{
    adds_up_scrolling, gtk_button_press, gtk_button_release, gtk_motion_notify, gtk_scroll_event, Inhibit,
    ScrollDirection, UiState,
};
use nvim_gtk_shell::options::ShellOptions;
use nvim_gtk_shell::state::State;

fn state() -> State<u8> {
    State::new(ShellOptions::new(None, Vec::new(), None), None)
}

fn keys(list: &[(MouseKey, usize)]) -> Vec<Action<String>> {
    list.iter().map(|&(key, times)| Action::Mouse { key, times }).collect()
}

fn scroll(direction: ScrollDirection) -> Vec<Action<String>> {
    gtk_scroll_event(&state(), direction, false, true).script.actions
}

#[test]
fn wheel_directions() {
    assert_eq!(scroll(ScrollDirection::Up), keys(&[(MouseKey::ScrollWheelUp, 1)]));
    assert_eq!(scroll(ScrollDirection::Down), keys(&[(MouseKey::ScrollWheelDown, 1)]));
    assert_eq!(scroll(ScrollDirection::Left), keys(&[(MouseKey::ScrollWheelLeft, 1)]));
    assert_eq!(scroll(ScrollDirection::Right), keys(&[(MouseKey::ScrollWheelRight, 1)]));
    assert_eq!(scroll(ScrollDirection::Unknown), vec![]);
}

#[test]
fn smooth_scrolling_makes_up_the_steps() {
    let smooth = |x, y| scroll(ScrollDirection::Smooth { x, y });
    assert_eq!(
        smooth(2, 3),
        keys(&[(MouseKey::ScrollWheelRight, 2), (MouseKey::ScrollWheelDown, 3)])
    );
    assert_eq!(
        smooth(-2, -1),
        keys(&[(MouseKey::ScrollWheelLeft, 2), (MouseKey::ScrollWheelUp, 1)])
    );
    assert_eq!(smooth(0, -4), keys(&[(MouseKey::ScrollWheelUp, 4)]));
    assert_eq!(smooth(0, 0), vec![]);
    assert_eq!(
        smooth(isize::MIN + 1, 0),
        keys(&[(MouseKey::ScrollWheelLeft, isize::MAX as usize)])
    );
}

#[test]
fn scrolling_closes_the_popup_menu_first() {
    let handled = gtk_scroll_event(&state(), ScrollDirection::Up, true, true);
    let esc = NvimRequest::Input { keys: "<Esc>".to_owned(), failure: Failure::Report };
    let mut expected = vec![Action::Nvim(esc)];
    expected.extend(keys(&[(MouseKey::ScrollWheelUp, 1)]));
    assert_eq!(handled.script.actions, expected);
    assert_eq!(handled.inhibit, Inhibit(false));
}

#[test]
fn buttons_have_their_keys() {
    let s = state();
    for (button, down, up) in [
        (1, MouseKey::LeftMouse, MouseKey::LeftRelease),
        (2, MouseKey::MiddleMouse, MouseKey::MiddleRelease),
        (3, MouseKey::RightMouse, MouseKey::RightRelease),
    ] {
        let mut ui = UiState::new();
        assert_eq!(gtk_button_press(&s, &mut ui, true, button).script.actions, keys(&[(down, 1)]));
        assert!(ui.mouse_pressed);
        assert_eq!(gtk_button_release(&s, &mut ui, button).script.actions, keys(&[(up, 1)]));
        assert!(!ui.mouse_pressed);
    }
}

#[test]
fn other_buttons_send_nothing() {
    let s = state();
    let mut ui = UiState::new();
    assert_eq!(gtk_button_press(&s, &mut ui, true, 8).script.actions, vec![]);
    assert!(ui.mouse_pressed);
    assert_eq!(gtk_button_release(&s, &mut ui, 0).script.actions, vec![]);
}

#[test]
fn later_clicks_of_a_series_are_no_presses() {
    let s = state();
    let mut ui = UiState::new();
    assert_eq!(gtk_button_press(&s, &mut ui, false, 1).script.actions, vec![]);
    assert!(!ui.mouse_pressed);
}

#[test]
fn drag_lasts_from_press_to_release() {
    let s = state();
    let mut ui = UiState::new();
    assert_eq!(gtk_motion_notify(&s, &ui).script.actions, vec![]);
    gtk_button_press(&s, &mut ui, true, 1);
    assert_eq!(gtk_motion_notify(&s, &ui).script.actions, keys(&[(MouseKey::LeftDrag, 1)]));
    gtk_button_release(&s, &mut ui, 1);
    assert_eq!(gtk_motion_notify(&s, &ui).script.actions, vec![]);
}

#[test]
fn disabled_mouse_sends_nothing() {
    let mut s = state();
    s.on_mouse(false);
    assert!(!s.mouse_enabled());
    assert!(!adds_up_scrolling(&s));
    let mut ui = UiState { mouse_pressed: true };
    assert_eq!(gtk_motion_notify(&s, &ui).script.actions, vec![]);
    assert_eq!(gtk_scroll_event(&s, ScrollDirection::Up, true, true).script.actions, vec![]);
    assert_eq!(gtk_button_release(&s, &mut ui, 1).script.actions, vec![]);
    assert!(!ui.mouse_pressed);
    assert_eq!(gtk_button_press(&s, &mut ui, true, 1).script.actions, vec![]);
    assert!(!ui.mouse_pressed);
    s.on_mouse(true);
    assert!(adds_up_scrolling(&s));
    assert_eq!(
        gtk_button_press(&s, &mut ui, true, 1).script.actions,
        keys(&[(MouseKey::LeftMouse, 1)])
    );
}

#[test]
fn key_names() {
    assert_eq!(MouseKey::LeftMouse.as_str(), "LeftMouse");
    assert_eq!(MouseKey::MiddleRelease.as_str(), "MiddleRelease");
    assert_eq!(MouseKey::LeftDrag.as_str(), "LeftDrag");
    assert_eq!(MouseKey::ScrollWheelDown.as_str(), "ScrollWheelDown");
}
