use neovim_lib::Value;
use nvim_gtk_shell::action::{Action, NvimRequest};
use nvim_gtk_shell::machine::NvimMode;
use nvim_gtk_shell::options::ShellOptions;
use nvim_gtk_shell::shell::{Shell, MINIMUM_SUPPORTED_NVIM_VERSION};

fn shell() -> Shell<u8> {
    Shell::new(ShellOptions::new(None, Vec::new(), None), None)
}

fn command(text: &str) -> Vec<Action<String>> {
    vec![Action::Nvim(NvimRequest::Command(text.to_owned()))]
}

#[test]
fn fresh_shell_has_a_cursor() {
    let s = shell();
    assert!(s.state.has_cursor());
    assert!(!s.is_nvim_initialized());
    assert!(!s.ui_state.mouse_pressed);
    assert_eq!(MINIMUM_SUPPORTED_NVIM_VERSION, "0.2.2");
}

#[test]
fn menu_commands() {
    let s = shell();
    assert_eq!(s.open_file("x", true).actions, command("e x"));
    assert_eq!(s.cd("y", true).actions, command("cd y"));
    assert_eq!(s.edit_save_all(true).actions, command(":wa"));
    assert_eq!(s.new_tab(true).actions, command(":tabe"));
    assert_eq!(s.edit_paste(NvimMode::Normal, true).actions, command("normal! \"+P"));
    assert_eq!(s.detach_ui(true).actions, vec![Action::Nvim(NvimRequest::Detach)]);
}

#[test]
fn nothing_is_sent_without_connection() {
    let s = shell();
    assert_eq!(s.open_file("x", false).actions, vec![]);
    assert_eq!(s.cd("y", false).actions, vec![]);
    assert_eq!(s.edit_save_all(false).actions, vec![]);
    assert_eq!(s.new_tab(false).actions, vec![]);
    assert_eq!(s.edit_paste(NvimMode::Other, false).actions, vec![]);
    assert_eq!(s.detach_ui(false).actions, vec![]);
}

#[test]
fn shell_sets_the_font() {
    let mut s = shell();
    let script = s.set_font_desc("Mono 9");
    assert_eq!(script.actions[0], Action::UpdateFont("Mono 9".to_owned()));
    assert_eq!(s.state.render_state().font_desc, "Mono 9");
}

#[test]
fn shell_registers_the_command_callback() {
    let mut s = shell();
    s.set_nvim_command_cb(Some(9));
    assert_eq!(s.state.on_command(vec![Value::Nil]), Some((9, vec![Value::Nil])));
}
