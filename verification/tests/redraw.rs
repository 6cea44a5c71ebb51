use neovim_lib::Value;
use nvim_gtk_shell::action::{
    Action, CmdLineOp, CursorOp, DrawOp, ModelOp, NvimRequest, PopupOp, Question, Repaint,
    RepaintMode,
};
use nvim_gtk_shell::grid::{ModelRect, UiModel};
use nvim_gtk_shell::options::ShellOptions;
use nvim_gtk_shell::render_state::ColorChoice;
use nvim_gtk_shell::state::redraw::ModeInfoUpdate;
use nvim_gtk_shell::state::State;
use std::collections::HashMap;

fn state() -> State<u8> {
    let mut s = State::new(ShellOptions::new(None, Vec::new(), None), None);
    s.attach_cursor();
    s
}

fn rect(n: usize) -> ModelRect {
    ModelRect { top: n, bot: n + 1, left: 0, right: 3 }
}

#[test]
fn cursor_goto_moves_model_and_input_method() {
    let r = state().on_cursor_goto(3, 14);
    assert_eq!(
        r.script.actions,
        vec![
            Action::Model(ModelOp::SetCursor { row: 3, col: 14 }),
            Action::Ask(Question::CursorCell),
        ]
    );
    assert_eq!(r.repaint, Repaint::ChangedAreas);
}

#[test]
fn put_takes_the_last_character() {
    let s = state();
    let put = s.on_put("ab\u{e9}".to_owned());
    assert_eq!((put.ch, put.double_width, put.attrs), ('\u{e9}', false, None));
    assert_eq!(put.repaint, Repaint::ChangedArea);
}

#[test]
fn put_of_nothing_is_the_second_half() {
    let put_on = state();
    let put = put_on.on_put(String::new());
    assert_eq!((put.ch, put.double_width), (' ', true));
}

#[test]
fn put_uses_the_attributes_set_last() {
    let mut s = state();
    assert_eq!(s.on_highlight_set(5), Repaint::Nothing);
    assert_eq!(s.on_highlight_set(6), Repaint::Nothing);
    assert_eq!(s.on_put("x".to_owned()).attrs, Some(&6));
}

#[test]
fn settings_stay() {
    let mut s = state();
    s.on_highlight_set(9);
    s.set_font_desc("Mono 8");
    s.on_mouse(false);
    s.on_resize(10, 10, true);
    s.on_update_bg(1);
    s.try_nvim_resize(20, 20);
    s.start_nvim_initialization();
    s.session_ended();
    assert_eq!(s.on_put("x".to_owned()).attrs, Some(&9));
    assert_eq!(s.render_state().font_desc, "Mono 8");
    assert!(!s.mouse_enabled());
}

#[test]
fn clearing_and_scrolling() {
    let s = state();
    let clear = s.on_clear();
    assert_eq!(clear.script.actions, vec![Action::Model(ModelOp::Clear)]);
    assert_eq!(clear.repaint, Repaint::All);
    let eol = s.on_eol_clear();
    assert_eq!(eol.script.actions, vec![Action::Model(ModelOp::EolClear)]);
    assert_eq!(eol.repaint, Repaint::ChangedArea);
    let scroll = s.on_scroll(-2);
    assert_eq!(scroll.script.actions, vec![Action::Model(ModelOp::Scroll(-2))]);
    assert_eq!(scroll.repaint, Repaint::ChangedArea);
    let region = s.on_set_scroll_region(1, 20, 0, 79);
    assert_eq!(
        region.script.actions,
        vec![Action::Model(ModelOp::SetScrollRegion { top: 1, bot: 20, left: 0, right: 79 })]
    );
    assert_eq!(region.repaint, Repaint::Nothing);
}

#[test]
fn resize_makes_a_new_grid_once() {
    let mut s = state();
    let new = Action::Model(ModelOp::New { rows: 24, columns: 80 });
    let r = s.on_resize(80, 24, false);
    assert_eq!(r.script.actions, vec![new]);
    assert_eq!(r.repaint, Repaint::Nothing);
    assert_eq!(s.on_resize(80, 24, false).script.actions, vec![]);
    let theme = Action::Nvim(NvimRequest::UpdateTheme);
    assert_eq!(s.on_resize(80, 24, true).script.actions, vec![theme]);
    assert_eq!(
        s.on_resize(80, 25, true).script.actions,
        vec![
            Action::Model(ModelOp::New { rows: 25, columns: 80 }),
            Action::Nvim(NvimRequest::UpdateTheme),
        ]
    );
    assert_eq!(UiModel::new(25, 80), UiModel { rows: 25, columns: 80 });
}

#[test]
fn redraw_of_everything_and_of_nothing() {
    let s = state();
    assert_eq!(
        s.on_redraw(&RepaintMode::All).actions,
        vec![Action::Model(ModelOp::ShapeDirty), Action::Draw(DrawOp::QueueAll)]
    );
    assert_eq!(s.on_redraw(&RepaintMode::Nothing).actions, vec![]);
    assert_eq!(s.on_redraw(&RepaintMode::AreaList(Vec::new())).actions, vec![Action::Model(
        ModelOp::ShapeDirty
    )]);
}

#[test]
fn redraw_extends_before_and_after_shaping() {
    let mode = RepaintMode::AreaList(vec![rect(1), rect(7)]);
    assert_eq!(
        state().on_redraw(&mode).actions,
        vec![
            Action::Draw(DrawOp::ExtendRect(0)),
            Action::Draw(DrawOp::ExtendRect(1)),
            Action::Model(ModelOp::ShapeDirty),
            Action::Draw(DrawOp::ExtendRect(0)),
            Action::Draw(DrawOp::QueueRect(0)),
            Action::Draw(DrawOp::ExtendRect(1)),
            Action::Draw(DrawOp::QueueRect(1)),
        ]
    );
    assert_eq!(mode.rects(), vec![rect(1), rect(7)]);
}

#[test]
fn redraw_of_one_area() {
    let mode = RepaintMode::Area(rect(4));
    assert_eq!(
        state().on_redraw(&mode).actions,
        vec![
            Action::Draw(DrawOp::ExtendRect(0)),
            Action::Model(ModelOp::ShapeDirty),
            Action::Draw(DrawOp::ExtendRect(0)),
            Action::Draw(DrawOp::QueueRect(0)),
        ]
    );
    assert_eq!(mode.rects(), vec![rect(4)]);
    assert_eq!(RepaintMode::All.rects(), vec![]);
}

#[test]
fn repaint_is_resolved() {
    let changed = vec![rect(2), rect(3)];
    assert_eq!(Repaint::All.resolve(rect(1), Vec::new()), RepaintMode::All);
    assert_eq!(Repaint::Nothing.resolve(rect(1), Vec::new()), RepaintMode::Nothing);
    assert_eq!(Repaint::CursorPoint.resolve(rect(1), Vec::new()), RepaintMode::Area(rect(1)));
    assert_eq!(
        Repaint::ChangedArea.resolve(rect(1), changed.clone()),
        RepaintMode::Area(rect(2))
    );
    assert_eq!(
        Repaint::ChangedAreas.resolve(rect(1), changed.clone()),
        RepaintMode::AreaList(changed)
    );
}

#[test]
fn cursor_is_painted_again() {
    assert_eq!(
        state().queue_redraw_cursor().actions,
        vec![Action::Ask(Question::Redraw(Repaint::CursorPoint))]
    );
}

#[test]
fn colors_come_by_number_or_default() {
    let mut s = state();
    assert_eq!(s.on_update_bg(0x123456), Repaint::Nothing);
    assert_eq!(s.on_update_fg(0), Repaint::Nothing);
    assert_eq!(s.on_update_sp(i64::MAX), Repaint::Nothing);
    let colors = s.render_state().color_model;
    assert_eq!(colors.bg_color, ColorChoice::Indexed(0x123456));
    assert_eq!(colors.fg_color, ColorChoice::Indexed(0));
    assert_eq!(colors.sp_color, ColorChoice::Indexed(i64::MAX as u64));
    s.on_update_bg(-1);
    s.on_update_fg(-1);
    s.on_update_sp(i64::MIN);
    let colors = s.render_state().color_model;
    assert_eq!(colors.bg_color, ColorChoice::Black);
    assert_eq!(colors.fg_color, ColorChoice::White);
    assert_eq!(colors.sp_color, ColorChoice::Red);
}

#[test]
fn mode_change_reaches_cursor_and_command_line() {
    let r = state().on_mode_change("insert".to_owned(), 4);
    assert_eq!(
        r.script.actions,
        vec![
            Action::UpdateMode { mode: "insert".to_owned(), idx: 4 },
            Action::Cursor(CursorOp::SetModeInfo),
            Action::CmdLine(CmdLineOp::SetModeInfo),
        ]
    );
    assert_eq!(r.repaint, Repaint::CursorPoint);
}

#[test]
fn busy_and_not_busy() {
    let s = state();
    let on = s.on_busy(true);
    assert_eq!(on.script.actions, vec![Action::Cursor(CursorOp::BusyOn)]);
    assert_eq!(on.repaint, Repaint::CursorPoint);
    assert_eq!(s.on_busy(false).script.actions, vec![Action::Cursor(CursorOp::BusyOff)]);
}

#[test]
fn popup_menu_is_shown_at_its_cell() {
    let items = ["one", "two"];
    let context = state().popupmenu_show(&items, -1, 6, 9, 420);
    assert_eq!(context.menu_items, &items);
    assert_eq!(context.selected, -1);
    assert_eq!(context.anchor, ModelRect { top: 6, bot: 6, left: 9, right: 9 });
    assert_eq!(context.max_width, 400);
    assert_eq!(context.repaint, Repaint::Nothing);
}

#[test]
fn popup_menu_is_hidden_and_moved() {
    let s = state();
    assert_eq!(s.popupmenu_hide().script.actions, vec![Action::Popup(PopupOp::Hide)]);
    assert_eq!(s.popupmenu_select(2).script.actions, vec![Action::Popup(PopupOp::Select(2))]);
    assert_eq!(s.popupmenu_select(2).repaint, Repaint::Nothing);
}

#[test]
fn mode_infos_are_loaded_together() {
    let entries: Vec<Result<u8, String>> = vec![Ok(1), Ok(2), Ok(3)];
    let (update, repaint) = state().mode_info_set(true, entries);
    assert_eq!(
        update,
        ModeInfoUpdate::Loaded { cursor_style_enabled: true, mode_infos: vec![1, 2, 3] }
    );
    assert_eq!(repaint, Repaint::Nothing);
    let none: Vec<Result<u8, String>> = Vec::new();
    assert_eq!(
        state().mode_info_set(false, none).0,
        ModeInfoUpdate::Loaded { cursor_style_enabled: false, mode_infos: vec![] }
    );
}

#[test]
fn first_bad_mode_info_counts() {
    let entries: Vec<Result<u8, &str>> = vec![Ok(1), Err("first"), Ok(2), Err("second")];
    assert_eq!(state().mode_info_set(true, entries).0, ModeInfoUpdate::Failed("first"));
}

#[test]
fn command_line_is_shown_and_hidden() {
    let s = state();
    let mut attrs = HashMap::new();
    attrs.insert("bold".to_owned(), Value::from(true));
    let content = vec![(attrs, "wq".to_owned())];
    let (context, reaction) = s.cmdline_show(
        content.clone(),
        2,
        ":".to_owned(),
        "prompt".to_owned(),
        1,
        3,
        rect(5),
        120,
    );
    assert_eq!(context.content, content);
    assert_eq!((context.pos, context.indent, context.level_idx), (2, 1, 3));
    assert_eq!((context.firstc.as_str(), context.prompt.as_str()), (":", "prompt"));
    assert_eq!((context.anchor, context.max_width), (rect(5), 100));
    assert_eq!(reaction.script.actions, vec![Action::Cursor(CursorOp::BusyOn)]);
    assert_eq!(reaction.repaint, Repaint::CursorPoint);

    let hide = s.cmdline_hide(3);
    assert_eq!(
        hide.script.actions,
        vec![Action::CmdLine(CmdLineOp::HideLevel(3)), Action::Cursor(CursorOp::BusyOff)]
    );
    assert_eq!(hide.repaint, Repaint::CursorPoint);
}

#[test]
fn command_line_block() {
    let s = state();
    let line = vec![(HashMap::new(), "a".to_owned())];
    let (content, max_width, reaction) = s.cmdline_block_show(vec![line.clone()], 50);
    assert_eq!((content, max_width), (vec![line.clone()], 30));
    assert_eq!(reaction.script.actions, vec![Action::Cursor(CursorOp::BusyOn)]);
    assert_eq!(s.cmdline_block_append(line.clone()), (line, Repaint::Nothing));
    assert_eq!(
        s.cmdline_block_hide().script.actions,
        vec![Action::CmdLine(CmdLineOp::BlockHide), Action::Cursor(CursorOp::BusyOff)]
    );
}

#[test]
fn command_line_position_and_special_character() {
    let s = state();
    let pos = s.cmdline_pos(4, 1);
    assert_eq!(pos.script.actions, vec![Action::CmdLine(CmdLineOp::Pos { pos: 4, level: 1 })]);
    let special = s.cmdline_special_char("^".to_owned(), true, 2);
    assert_eq!(
        special.script.actions,
        vec![Action::CmdLine(CmdLineOp::SpecialChar { c: "^".to_owned(), shift: true, level: 2 })]
    );
    assert_eq!(special.repaint, Repaint::Nothing);
}

#[test]
fn tab_pages_are_passed_on() {
    let tab = |n: u64| neovim_lib::neovim_api::Tabpage::new(Value::from(n));
    let update = state().tabline_update(tab(2), vec![(tab(1), None), (tab(2), Some("b".to_owned()))]);
    assert!(update.selected == tab(2));
    assert!(update.tabs == vec![(tab(1), None), (tab(2), Some("b".to_owned()))]);
    assert_eq!(update.repaint, Repaint::Nothing);
}
