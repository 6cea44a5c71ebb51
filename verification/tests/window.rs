use nvim_gtk_shell::action::{
    Action, CursorOp, DrawOp, ImOp, NvimRequest, Question, Repaint,
};
use nvim_gtk_shell::mouse::Inhibit;
use nvim_gtk_shell::options::ShellOptions;
use nvim_gtk_shell::shell::Shell;
use nvim_gtk_shell::window::{
    draw_initializing, drawing_area_events, gtk_configure_event, gtk_drag_data_received,
    gtk_focus_in, gtk_focus_out, gtk_key_press, gtk_key_release, route_key, KeyRoute,
    LoadingLayout, LOADING_TEXT,
};

fn shell(double_buffer: Option<&str>) -> Shell<u8> {
    Shell::new(ShellOptions::new(None, Vec::new(), None), double_buffer)
}

#[test]
fn event_mask() {
    assert_eq!(drawing_area_events(), 0xA0_0310);
}

#[test]
fn focus_in() {
    let s = shell(None);
    let command = "if exists('#FocusGained') | doautocmd FocusGained | endif".to_owned();
    let handled = gtk_focus_in(&s.state, true);
    assert_eq!(
        handled.script.actions,
        vec![
            Action::Nvim(NvimRequest::Command(command)),
            Action::Im(ImOp::FocusIn),
            Action::Cursor(CursorOp::EnterFocus),
            Action::Ask(Question::Redraw(Repaint::CursorPoint)),
        ]
    );
    assert_eq!(handled.inhibit, Inhibit(false));
}

#[test]
fn focus_out_without_connection() {
    let s = shell(None);
    let handled = gtk_focus_out(&s.state, false);
    assert_eq!(
        handled.script.actions,
        vec![
            Action::Im(ImOp::FocusOut),
            Action::Cursor(CursorOp::LeaveFocus),
            Action::Ask(Question::Redraw(Repaint::CursorPoint)),
        ]
    );
    let command = "if exists('#FocusLost') | doautocmd FocusLost | endif".to_owned();
    assert_eq!(
        gtk_focus_out(&s.state, true).script.actions[0],
        Action::Nvim(NvimRequest::Command(command))
    );
}

#[test]
fn keys_go_to_the_input_method_first() {
    let s = shell(None);
    assert_eq!(gtk_key_press(&s.state).actions, vec![Action::Cursor(CursorOp::ResetState)]);
    assert_eq!(route_key(true, true), KeyRoute::InputMethod);
    assert_eq!(route_key(true, false), KeyRoute::InputMethod);
    assert_eq!(route_key(false, true), KeyRoute::Nvim);
    assert_eq!(route_key(false, false), KeyRoute::Nobody);
    assert_eq!(gtk_key_release(true), Inhibit(false));
    assert_eq!(gtk_key_release(false), Inhibit(false));
    assert_eq!(KeyRoute::InputMethod.inhibit(), Some(Inhibit(true)));
    assert_eq!(KeyRoute::Nvim.inhibit(), None);
    assert_eq!(KeyRoute::Nobody.inhibit(), Some(Inhibit(false)));
}

#[test]
fn configure_event_resizes_both() {
    let mut s = shell(Some("1"));
    let handled = gtk_configure_event(&mut s.state, 640, 480);
    assert_eq!(
        handled.script.actions,
        vec![
            Action::Draw(DrawOp::CreateSurface { width: 640, height: 480 }),
            Action::Ask(Question::GridSize),
        ]
    );
    assert_eq!(handled.inhibit, Inhibit(false));
    let again = gtk_configure_event(&mut s.state, 640, 480);
    assert_eq!(again.script.actions, vec![Action::Ask(Question::GridSize)]);
}

#[test]
fn dropped_files_become_arguments() {
    let names = vec![Some("/a".to_owned()), None, Some("/b".to_owned())];
    assert_eq!(
        gtk_drag_data_received(&names).actions,
        vec![Action::Nvim(NvimRequest::Command(":ar /a /b".to_owned()))]
    );
}

#[test]
fn loading_text_is_centred() {
    assert_eq!(LOADING_TEXT, "Loading->");
    let layout = draw_initializing(801, 600, 90, 17);
    assert_eq!(layout, LoadingLayout { x: 711, y: 583, cursor_x: 891 });
    let x = 801.0 / 2.0 - 90.0 / 2.0;
    let y = 600.0 / 2.0 - 17.0 / 2.0;
    assert_eq!(layout.x as f64 / 2.0, x);
    assert_eq!(layout.y as f64 / 2.0, y);
    assert_eq!(layout.cursor_x as f64 / 2.0, x + 90.0);
    let tight = draw_initializing(1, 1, i32::MAX, i32::MAX);
    assert_eq!(tight.x, 1 - i32::MAX as i64);
}
