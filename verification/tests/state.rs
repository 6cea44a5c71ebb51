use neovim_lib::Value;
use nvim_gtk_shell::action::{
    Action, DrawOp, Failure, ImOp, ModelOp, NvimRequest, Question, Script, TimerOp,
};
use nvim_gtk_shell::grid::ModelRect;
use nvim_gtk_shell::machine::NvimMode;
use nvim_gtk_shell::options::ShellOptions;
use nvim_gtk_shell::render_state::{ColorChoice, RenderState, Surface};
use nvim_gtk_shell::state::{double_buffer_enabled, State};

fn state(double_buffer: Option<&str>) -> State<u8> {
    State::new(ShellOptions::new(None, Vec::new(), None), double_buffer)
}

fn command(text: &str) -> Vec<Action<String>> {
    vec![Action::Nvim(NvimRequest::Command(text.to_owned()))]
}

fn start() -> Action<String> {
    Action::Timer(TimerOp::Start { delay_ms: 200 })
}

#[test]
fn double_buffer_variable() {
    assert!(double_buffer_enabled(Some("1")));
    assert!(double_buffer_enabled(Some(" 1\n")));
    assert!(double_buffer_enabled(Some("\u{a0}1")));
    assert!(!double_buffer_enabled(Some("0")));
    assert!(!double_buffer_enabled(Some("")));
    assert!(!double_buffer_enabled(Some("1 1")));
    assert!(!double_buffer_enabled(None));
}

#[test]
fn white_space_around_the_double_buffer_variable() {
    for code in 0u8..128 {
        let c = code as char;
        let space = code == 32 || (9..=13).contains(&code);
        assert_eq!(double_buffer_enabled(Some(&format!("{}1", c))), space, "{:?}", c);
        assert_eq!(double_buffer_enabled(Some(&format!("1{}", c))), space, "{:?}", c);
    }
}

#[test]
fn fresh_state() {
    let s = state(None);
    assert!(s.mouse_enabled());
    assert!(!s.is_nvim_initialized());
    assert!(!s.has_cursor());
    assert!(!s.has_surface());
    assert_eq!(s.render_state().font_desc, "DejaVu Sans Mono 12");
    assert_eq!(s.render_state().color_model.bg_color, ColorChoice::Initial);
}

#[test]
fn fresh_render_state() {
    let r = RenderState::new();
    assert_eq!(r.font_desc, "DejaVu Sans Mono 12");
    assert_eq!(r.color_model.sp_color, ColorChoice::Initial);
    assert_eq!(Surface::new(3, 4), Surface { width: 3, height: 4 });
}

#[test]
fn surface_follows_the_drawing_area() {
    let mut s = state(Some("1"));
    let create = |width, height| vec![Action::Draw(DrawOp::CreateSurface { width, height })];
    assert_eq!(s.resize_surface(640, 480).actions, create(640, 480));
    assert!(s.has_surface());
    assert_eq!(s.resize_surface(640, 480).actions, vec![]);
    assert_eq!(s.resize_surface(641, 480).actions, create(641, 480));
    assert_eq!(s.resize_surface(641, 481).actions, create(641, 481));
}

#[test]
fn no_surface_without_double_buffering() {
    let mut s = state(Some("0"));
    assert_eq!(s.resize_surface(640, 480).actions, vec![]);
    assert!(!s.has_surface());
}

#[test]
fn nvim_is_started_once() {
    let mut s = state(None);
    assert!(s.start_nvim_initialization());
    assert!(!s.start_nvim_initialization());
    s.session_ended();
    assert!(s.start_nvim_initialization());
}

#[test]
fn font_is_set() {
    let mut s = state(None);
    let expected = vec![
        Action::UpdateFont("Mono 10".to_owned()),
        Action::Model(ModelOp::ClearGlyphs),
        Action::Ask(Question::GridSize),
        Action::Model(ModelOp::ShapeDirty),
        Action::Draw(DrawOp::QueueAll),
    ];
    assert_eq!(s.set_font_desc("Mono 10").actions, expected);
    assert_eq!(s.render_state().font_desc, "Mono 10");

    let mut with_source = vec![Action::FontFromRpc];
    with_source.extend(expected);
    assert_eq!(s.set_font("Mono 10".to_owned()).actions, with_source);
}

#[test]
fn files_and_directories() {
    let s = state(None);
    assert_eq!(s.open_file("a b", true).actions, command("e a b"));
    assert_eq!(s.open_file("a b", false).actions, vec![]);
    assert_eq!(s.cd("/tmp", true).actions, command("cd /tmp"));
    assert_eq!(s.cd("/tmp", false).actions, vec![]);
}

#[test]
fn popup_menu_is_closed_by_escape() {
    let s = state(None);
    let esc = Action::Nvim(NvimRequest::Input {
        keys: "<Esc>".to_owned(),
        failure: Failure::Report,
    });
    assert_eq!(s.close_popup_menu(true, true).actions, vec![esc]);
    assert_eq!(s.close_popup_menu(false, true).actions, vec![]);
    assert_eq!(s.close_popup_menu(true, false).actions, vec![]);
}

#[test]
fn composed_text_is_passed_on() {
    let s = state(None);
    assert_eq!(
        s.im_commit("\u{e9}", true).actions,
        vec![Action::Nvim(NvimRequest::ImInput("\u{e9}".to_owned()))]
    );
    assert_eq!(s.im_commit("\u{e9}", false), Script::empty());
}

#[test]
fn input_method_follows_the_cursor() {
    let rect = ModelRect { top: 2, bot: 2, left: 5, right: 5 };
    assert_eq!(
        state(None).set_im_location(2, 5).actions,
        vec![Action::Im(ImOp::SetCursorLocation(rect)), Action::Im(ImOp::Reset)]
    );
}

#[test]
fn resize_waits_and_goes_out() {
    let mut s = state(None);
    assert_eq!(s.try_nvim_resize(80, 24).actions, vec![start()]);
    let request = Action::Nvim(NvimRequest::TryResize { columns: 80, rows: 24 });
    assert_eq!(s.resize_timer_fired(true).actions, vec![request]);
    assert_eq!(s.resize_timer_fired(true).actions, vec![]);
}

#[test]
fn same_resize_is_asked_for_once() {
    let mut s = state(None);
    assert_eq!(s.try_nvim_resize(80, 24).actions, vec![start()]);
    assert_eq!(s.try_nvim_resize(80, 24).actions, vec![]);
    s.resize_timer_fired(true);
    assert_eq!(s.try_nvim_resize(80, 24).actions, vec![]);
    assert_eq!(s.try_nvim_resize(24, 80).actions, vec![start()]);
}

#[test]
fn later_resize_replaces_the_one_that_waits() {
    let mut s = state(None);
    s.try_nvim_resize(80, 24);
    assert_eq!(
        s.try_nvim_resize(100, 30).actions,
        vec![Action::Timer(TimerOp::Cancel), start()]
    );
    assert_eq!(
        s.resize_timer_fired(true).actions,
        vec![Action::Nvim(NvimRequest::TryResize { columns: 100, rows: 30 })]
    );
}

#[test]
fn last_of_many_resizes_wins() {
    let mut s = state(None);
    let cancel = Action::Timer(TimerOp::Cancel);
    assert_eq!(s.try_nvim_resize(80, 24).actions, vec![start()]);
    assert_eq!(s.try_nvim_resize(100, 30).actions, vec![cancel, start()]);
    assert_eq!(s.try_nvim_resize(100, 30).actions, vec![]);
    s.try_nvim_resize(120, 40);
    s.try_nvim_resize(80, 24);
    assert_eq!(
        s.resize_timer_fired(true).actions,
        vec![Action::Nvim(NvimRequest::TryResize { columns: 80, rows: 24 })]
    );
    assert_eq!(s.resize_timer_fired(true).actions, vec![]);
}

#[test]
fn resize_without_connection_is_lost() {
    let mut s = state(None);
    s.try_nvim_resize(80, 24);
    assert_eq!(s.resize_timer_fired(false).actions, vec![]);
    assert_eq!(s.resize_timer_fired(true).actions, vec![]);
}

#[test]
fn present_size_is_not_asked_for() {
    let mut s = state(None);
    assert_eq!(s.try_nvim_resize(0, 0).actions, vec![]);
    s.on_resize(80, 24, false);
    assert_eq!(s.try_nvim_resize(80, 24).actions, vec![]);
    assert_eq!(s.try_nvim_resize(81, 24).actions, vec![start()]);
}

#[test]
fn pasting_depends_on_the_mode() {
    let s = state(None);
    assert_eq!(s.edit_paste("+", NvimMode::Normal, true).actions, command("normal! \"+P"));
    assert_eq!(s.edit_paste("*", NvimMode::Insert, true).actions, command("normal! \"*P"));
    assert_eq!(
        s.edit_paste("+", NvimMode::Other, true).actions,
        vec![Action::Nvim(NvimRequest::InputAsync("<C-r>+".to_owned()))]
    );
    assert_eq!(s.edit_paste("+", NvimMode::Normal, false).actions, vec![]);
}

#[test]
fn popup_width() {
    assert_eq!(State::<u8>::max_popup_width(320), 300);
    assert_eq!(State::<u8>::max_popup_width(0), -20);
}

#[test]
fn commands_go_to_their_callback() {
    let mut s = state(None);
    assert_eq!(s.on_command(vec![Value::from(1)]), None);
    s.set_nvim_command_cb(Some(7));
    assert_eq!(s.on_command(vec![Value::from(1)]), Some((7, vec![Value::from(1)])));
    s.set_nvim_command_cb(None);
    assert_eq!(s.on_command(Vec::new()), None);
}

#[test]
fn mouse_input_is_sent() {
    let s = state(None);
    let keys = "<LeftMouse><4,9>".to_owned();
    assert_eq!(
        s.mouse_input("<LeftMouse>", 4, 9, true).actions,
        vec![Action::Nvim(NvimRequest::Input { keys, failure: Failure::Panic })]
    );
    assert_eq!(s.mouse_input("<LeftMouse>", 4, 9, false).actions, vec![]);
}
