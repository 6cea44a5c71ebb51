//! The redraw events of neovim.
use crate::action::{
    Action, CmdLineOp, CursorOp, DrawOp, ModelOp, NvimRequest, PopupOp, Question, Reaction,
    Repaint, RepaintMode, Script,
};
use crate::grid::{ModelRect, UiModel};
use crate::machine::{paint, paint_all, paint_rects, Actions, StateView};
use crate::render_state::ColorChoice;
use crate::state::State;
use neovim_lib::neovim_api::Tabpage;
use neovim_lib::Value;
use std::collections::HashMap;
use vstd::prelude::*;
use vstd::string::StrSliceExecFns;

verus! {

/// Declares `neovim_lib::neovim_api::Tabpage`, the handle of a tab page. The shell passes it on
/// and never looks inside.
#[verifier::external_type_specification]
#[verifier::external_body]
pub struct ExTabpage(Tabpage);

/// A piece of the command line: the attributes and the text.
pub type Chunk = (HashMap<String, Value>, String);

/// A character for the cell at the cursor.
pub struct Put<'a, A> {
    pub ch: char,
    /// Whether the character belongs to the cell before, which is as wide as two.
    pub double_width: bool,
    pub attrs: Option<&'a A>,
    pub repaint: Repaint,
}

/// A completion menu to show.
pub struct PopupMenuContext<'a, I> {
    pub menu_items: &'a [I],
    pub selected: i64,
    /// The cell at which the menu appears.
    pub anchor: ModelRect,
    pub max_width: i32,
    pub repaint: Repaint,
}

/// A level of the command line to show.
pub struct CmdLineContext {
    pub content: Vec<Chunk>,
    pub pos: u64,
    pub firstc: String,
    pub prompt: String,
    pub indent: u64,
    pub level_idx: u64,
    /// The cells at which the command line appears.
    pub anchor: ModelRect,
    pub max_width: i32,
}

/// Tab pages to show.
pub struct TablineUpdate {
    pub selected: Tabpage,
    pub tabs: Vec<(Tabpage, Option<String>)>,
    pub repaint: Repaint,
}

/// What comes of the list of cursor shapes.
#[derive(Debug, PartialEq, Eq)]
pub enum ModeInfoUpdate<I, E> {
    /// All entries could be read: they become the list.
    Loaded { cursor_style_enabled: bool, mode_infos: Vec<I> },
    /// The list stays as it is; the error is logged.
    Failed(E),
}

/// What becomes of entries that were read one by one: a list if all could be read, otherwise the
/// first error.
pub open spec fn collected<I, E>(
    entries: Seq<Result<I, E>>,
    cursor_style_enabled: bool,
    update: ModeInfoUpdate<I, E>,
) -> bool {
    match update {
        ModeInfoUpdate::Loaded { cursor_style_enabled: enabled, mode_infos } => {
            &&& enabled == cursor_style_enabled
            &&& entries =~= mode_infos@.map_values(|info: I| Ok::<I, E>(info))
        },
        ModeInfoUpdate::Failed(error) => exists|i: int|
            {
                &&& 0 <= i < entries.len()
                &&& #[trigger] entries[i] == Err::<I, E>(error)
                &&& forall|j: int| 0 <= j < i ==> (#[trigger] entries[j]) is Ok
            },
    }
}

impl<A> State<A> {
    pub fn on_cursor_goto(&self, row: u64, col: u64) -> (reaction: Reaction)
        ensures
            reaction.script@ == seq![
                Action::<Seq<char>>::Model(
                    ModelOp::SetCursor { row: row as usize, col: col as usize },
                ),
                Action::Ask(Question::CursorCell),
            ],
            reaction.repaint == Repaint::ChangedAreas,
    {
        let mut script = Script::one(
            Action::Model(ModelOp::SetCursor { row: row as usize, col: col as usize }),
        );
        script.push(Action::Ask(Question::CursorCell));
        assert(script@ =~= seq![
            Action::<Seq<char>>::Model(
                ModelOp::SetCursor { row: row as usize, col: col as usize },
            ),
            Action::Ask(Question::CursorCell),
        ]);
        Reaction { script, repaint: Repaint::ChangedAreas }
    }

    /// Text for the cell at the cursor. No text at all says that the character before takes two
    /// cells; of several characters the last one counts.
    pub fn on_put(&self, text: String) -> (put: Put<'_, A>)
        ensures
            put.ch == if text@.len() > 0 {
                text@.last()
            } else {
                ' '
            },
            put.double_width == (text@.len() == 0),
            put.attrs == match self@.cur_attrs {
                Some(attrs) => Some(&attrs),
                None => None,
            },
            put.repaint == Repaint::ChangedArea,
    {
        let len: usize = text.as_str().unicode_len();
        let ch = if len > 0 {
            text.as_str().get_char(len - 1)
        } else {
            ' '
        };
        Put {
            ch,
            double_width: text.as_str().is_empty(),
            attrs: self.cur_attrs.as_ref(),
            repaint: Repaint::ChangedArea,
        }
    }

    pub fn on_clear(&self) -> (reaction: Reaction)
        ensures
            reaction.script@ == seq![Action::<Seq<char>>::Model(ModelOp::Clear)],
            reaction.repaint == Repaint::All,
    {
        Reaction { script: Script::one(Action::Model(ModelOp::Clear)), repaint: Repaint::All }
    }

    pub fn on_eol_clear(&self) -> (reaction: Reaction)
        ensures
            reaction.script@ == seq![Action::<Seq<char>>::Model(ModelOp::EolClear)],
            reaction.repaint == Repaint::ChangedArea,
    {
        Reaction {
            script: Script::one(Action::Model(ModelOp::EolClear)),
            repaint: Repaint::ChangedArea,
        }
    }

    /// The grid gets another size. The theme may have changed with it.
    pub fn on_resize(&mut self, columns: u64, rows: u64, connected: bool) -> (reaction: Reaction)
        ensures
            final(self)@ == old(self)@.on_resize(columns, rows),
            reaction.script@ == old(self)@.on_resize_actions(columns, rows, connected),
            reaction.repaint == Repaint::Nothing,
    {
        let mut script = Script::empty();
        if self.model.columns != columns as usize || self.model.rows != rows as usize {
            self.model = UiModel::new(rows, columns);
            script.push(Action::Model(ModelOp::New { rows, columns }));
        }
        if connected {
            script.push(Action::Nvim(NvimRequest::UpdateTheme));
        }
        assert(script@ =~= old(self)@.on_resize_actions(columns, rows, connected));
        Reaction { script, repaint: Repaint::Nothing }
    }

    fn queue_draw_area(count: usize) -> (script: Script)
        ensures
            script@ == paint_rects(count as nat),
    {
        let ghost plan = paint_rects(count as nat);
        let mut script = Script::empty();
        let mut i: usize = 0;
        while i < count
            invariant
                i <= count,
                plan == paint_rects(count as nat),
                script@ =~= plan.take(i as int),
            decreases count - i,
        {
            script.push(Action::Draw(DrawOp::ExtendRect(i)));
            i = i + 1;
        }
        script.push(Action::Model(ModelOp::ShapeDirty));
        let mut k: usize = 0;
        while k < count
            invariant
                k <= count,
                plan == paint_rects(count as nat),
                script@ =~= plan.take(count + 1 + 2 * k),
            decreases count - k,
        {
            script.push(Action::Draw(DrawOp::ExtendRect(k)));
            script.push(Action::Draw(DrawOp::QueueRect(k)));
            k = k + 1;
        }
        assert(script@ =~= plan);
        script
    }

    /// Paints again what has changed. The rectangles that the script counts are those of
    /// [`RepaintMode::rects`].
    pub fn on_redraw(&self, mode: &RepaintMode) -> (script: Script)
        ensures
            script@ == paint(*mode),
    {
        match mode {
            RepaintMode::All => {
                let mut script = Script::one(Action::Model(ModelOp::ShapeDirty));
                script.push(Action::Draw(DrawOp::QueueAll));
                assert(script@ =~= paint_all());
                script
            },
            RepaintMode::Area(_) => Self::queue_draw_area(1),
            RepaintMode::AreaList(list) => Self::queue_draw_area(list.len()),
            RepaintMode::Nothing => Script::empty(),
        }
    }

    /// Paints the cell of the cursor again.
    pub fn queue_redraw_cursor(&self) -> (script: Script)
        ensures
            script@ == seq![
                Action::<Seq<char>>::Ask(Question::Redraw(Repaint::CursorPoint)),
            ],
    {
        Script::one(Action::Ask(Question::Redraw(Repaint::CursorPoint)))
    }

    pub fn on_set_scroll_region(&self, top: u64, bot: u64, left: u64, right: u64) -> (reaction:
        Reaction)
        ensures
            reaction.script@ == seq![
                Action::<Seq<char>>::Model(ModelOp::SetScrollRegion { top, bot, left, right }),
            ],
            reaction.repaint == Repaint::Nothing,
    {
        Reaction {
            script: Script::one(Action::Model(ModelOp::SetScrollRegion { top, bot, left, right })),
            repaint: Repaint::Nothing,
        }
    }

    pub fn on_scroll(&self, count: i64) -> (reaction: Reaction)
        ensures
            reaction.script@ == seq![Action::<Seq<char>>::Model(ModelOp::Scroll(count))],
            reaction.repaint == Repaint::ChangedArea,
    {
        Reaction {
            script: Script::one(Action::Model(ModelOp::Scroll(count))),
            repaint: Repaint::ChangedArea,
        }
    }

    /// Sets the attributes of the text that comes next.
    pub fn on_highlight_set(&mut self, attrs: A) -> (repaint: Repaint)
        ensures
            final(self)@ == (StateView { cur_attrs: Some(attrs), ..old(self)@ }),
            repaint == Repaint::Nothing,
    {
        self.cur_attrs = Some(attrs);
        Repaint::Nothing
    }

    pub fn on_update_bg(&mut self, bg: i64) -> (repaint: Repaint)
        ensures
            final(self)@ == old(self)@.on_update_bg(bg),
            repaint == Repaint::Nothing,
    {
        self.render_state.color_model.bg_color = ColorChoice::choose_color(bg, ColorChoice::Black);
        Repaint::Nothing
    }

    pub fn on_update_fg(&mut self, fg: i64) -> (repaint: Repaint)
        ensures
            final(self)@ == old(self)@.on_update_fg(fg),
            repaint == Repaint::Nothing,
    {
        self.render_state.color_model.fg_color = ColorChoice::choose_color(fg, ColorChoice::White);
        Repaint::Nothing
    }

    pub fn on_update_sp(&mut self, sp: i64) -> (repaint: Repaint)
        ensures
            final(self)@ == old(self)@.on_update_sp(sp),
            repaint == Repaint::Nothing,
    {
        self.render_state.color_model.sp_color = ColorChoice::choose_color(sp, ColorChoice::Red);
        Repaint::Nothing
    }

    pub fn on_mode_change(&self, mode: String, idx: u64) -> (reaction: Reaction)
        requires
            self@.cursor,
        ensures
            reaction.script@ == seq![
                Action::UpdateMode { mode: mode@, idx: idx as usize },
                Action::Cursor(CursorOp::SetModeInfo),
                Action::CmdLine(CmdLineOp::SetModeInfo),
            ],
            reaction.repaint == Repaint::CursorPoint,
    {
        let ghost name = mode@;
        let mut script = Script::one(Action::UpdateMode { mode, idx: idx as usize });
        script.push(Action::Cursor(CursorOp::SetModeInfo));
        script.push(Action::CmdLine(CmdLineOp::SetModeInfo));
        assert(script@ =~= seq![
            Action::UpdateMode { mode: name, idx: idx as usize },
            Action::Cursor(CursorOp::SetModeInfo),
            Action::CmdLine(CmdLineOp::SetModeInfo),
        ]);
        Reaction { script, repaint: Repaint::CursorPoint }
    }

    /// Says whether neovim wants to hear of the mouse.
    pub fn on_mouse(&mut self, on: bool) -> (repaint: Repaint)
        ensures
            final(self)@ == (StateView { mouse_enabled: on, ..old(self)@ }),
            repaint == Repaint::Nothing,
    {
        self.mouse_enabled = on;
        Repaint::Nothing
    }

    pub fn on_busy(&self, busy: bool) -> (reaction: Reaction)
        requires
            self@.cursor,
        ensures
            reaction.script@ == busy_actions(busy),
            reaction.repaint == Repaint::CursorPoint,
    {
        let op = if busy {
            CursorOp::BusyOn
        } else {
            CursorOp::BusyOff
        };
        Reaction { script: Script::one(Action::Cursor(op)), repaint: Repaint::CursorPoint }
    }

    /// Shows the completion menu at a cell.
    pub fn popupmenu_show<'a, I>(
        &self,
        menu: &'a [I],
        selected: i64,
        row: u64,
        col: u64,
        allocated_width: i32,
    ) -> (context: PopupMenuContext<'a, I>)
        requires
            allocated_width >= i32::MIN + 20,
        ensures
            context == (PopupMenuContext {
                menu_items: menu,
                selected,
                anchor: ModelRect {
                    top: row as usize,
                    bot: row as usize,
                    left: col as usize,
                    right: col as usize,
                },
                max_width: (allocated_width - 20) as i32,
                repaint: Repaint::Nothing,
            }),
    {
        PopupMenuContext {
            menu_items: menu,
            selected,
            anchor: ModelRect::point(col as usize, row as usize),
            max_width: Self::max_popup_width(allocated_width),
            repaint: Repaint::Nothing,
        }
    }

    pub fn popupmenu_hide(&self) -> (reaction: Reaction)
        ensures
            reaction.script@ == seq![Action::<Seq<char>>::Popup(PopupOp::Hide)],
            reaction.repaint == Repaint::Nothing,
    {
        Reaction { script: Script::one(Action::Popup(PopupOp::Hide)), repaint: Repaint::Nothing }
    }

    pub fn popupmenu_select(&self, selected: i64) -> (reaction: Reaction)
        ensures
            reaction.script@ == seq![Action::<Seq<char>>::Popup(PopupOp::Select(selected))],
            reaction.repaint == Repaint::Nothing,
    {
        Reaction {
            script: Script::one(Action::Popup(PopupOp::Select(selected))),
            repaint: Repaint::Nothing,
        }
    }

    pub fn tabline_update(&self, selected: Tabpage, tabs: Vec<(Tabpage, Option<String>)>) -> (update:
        TablineUpdate)
        ensures
            update == (TablineUpdate { selected, tabs, repaint: Repaint::Nothing }),
    {
        TablineUpdate { selected, tabs, repaint: Repaint::Nothing }
    }

    /// Takes over the list of cursor shapes. `mode_infos` has what came of reading each entry.
    pub fn mode_info_set<I, E>(
        &self,
        cursor_style_enabled: bool,
        mode_infos: Vec<Result<I, E>>,
    ) -> (update: (ModeInfoUpdate<I, E>, Repaint))
        ensures
            collected(mode_infos@, cursor_style_enabled, update.0),
            update.1 == Repaint::Nothing,
    {
        let ghost entries = mode_infos@;
        let mut rest = mode_infos;
        let mut read: Vec<I> = Vec::new();
        while rest.len() > 0
            invariant
                entries == mode_infos@,
                entries =~= read@.map_values(|info: I| Ok::<I, E>(info)) + rest@,
            decreases rest.len(),
        {
            let ghost before = read@;
            match rest.remove(0) {
                Ok(info) => {
                    read.push(info);
                    assert(read@.map_values(|info: I| Ok::<I, E>(info)) =~= before.map_values(
                        |info: I| Ok::<I, E>(info),
                    ).push(Ok(info)));
                },
                Err(error) => {
                    proof {
                        let ok = read@.map_values(|info: I| Ok::<I, E>(info));
                        assert forall|j: int| 0 <= j < ok.len() implies (
                        #[trigger] entries[j]) is Ok by {
                            assert(entries[j] == ok[j]);
                        }
                        assert(entries[ok.len() as int] == Err::<I, E>(error));
                    }
                    return (ModeInfoUpdate::Failed(error), Repaint::Nothing);
                },
            }
        }
        (ModeInfoUpdate::Loaded { cursor_style_enabled, mode_infos: read }, Repaint::Nothing)
    }

    /// Shows a level of the command line at the cursor. The reaction follows once it is shown.
    pub fn cmdline_show(
        &self,
        content: Vec<Chunk>,
        pos: u64,
        firstc: String,
        prompt: String,
        indent: u64,
        level: u64,
        cursor: ModelRect,
        allocated_width: i32,
    ) -> (show: (CmdLineContext, Reaction))
        requires
            self@.cursor,
            allocated_width >= i32::MIN + 20,
        ensures
            show.0 == (CmdLineContext {
                content,
                pos,
                firstc,
                prompt,
                indent,
                level_idx: level,
                anchor: cursor,
                max_width: (allocated_width - 20) as i32,
            }),
            show.1.script@ == busy_actions(true),
            show.1.repaint == Repaint::CursorPoint,
    {
        let context = CmdLineContext {
            content,
            pos,
            firstc,
            prompt,
            indent,
            level_idx: level,
            anchor: cursor,
            max_width: Self::max_popup_width(allocated_width),
        };
        (context, self.on_busy(true))
    }

    pub fn cmdline_hide(&self, level: u64) -> (reaction: Reaction)
        requires
            self@.cursor,
        ensures
            reaction.script@ == cmdline_hide_actions(level),
            reaction.repaint == Repaint::CursorPoint,
    {
        let mut script = Script::one(Action::CmdLine(CmdLineOp::HideLevel(level)));
        let busy = self.on_busy(false);
        script.append(busy.script);
        assert(script@ =~= cmdline_hide_actions(level));
        Reaction { script, repaint: busy.repaint }
    }

    /// Shows a block of lines above the command line. The reaction follows once it is shown.
    pub fn cmdline_block_show(&self, content: Vec<Vec<Chunk>>, allocated_width: i32) -> (show: (
        Vec<Vec<Chunk>>,
        i32,
        Reaction,
    ))
        requires
            self@.cursor,
            allocated_width >= i32::MIN + 20,
        ensures
            show.0 == content,
            show.1 == allocated_width - 20,
            show.2.script@ == busy_actions(true),
            show.2.repaint == Repaint::CursorPoint,
    {
        (content, Self::max_popup_width(allocated_width), self.on_busy(true))
    }

    /// Adds a line to the block.
    pub fn cmdline_block_append(&self, content: Vec<Chunk>) -> (line: (Vec<Chunk>, Repaint))
        ensures
            line == (content, Repaint::Nothing),
    {
        (content, Repaint::Nothing)
    }

    pub fn cmdline_block_hide(&self) -> (reaction: Reaction)
        requires
            self@.cursor,
        ensures
            reaction.script@ == cmdline_block_hide_actions(),
            reaction.repaint == Repaint::CursorPoint,
    {
        let mut script = Script::one(Action::CmdLine(CmdLineOp::BlockHide));
        let busy = self.on_busy(false);
        script.append(busy.script);
        assert(script@ =~= cmdline_block_hide_actions());
        Reaction { script, repaint: busy.repaint }
    }

    pub fn cmdline_pos(&self, pos: u64, level: u64) -> (reaction: Reaction)
        ensures
            reaction.script@ == seq![Action::<Seq<char>>::CmdLine(CmdLineOp::Pos { pos, level })],
            reaction.repaint == Repaint::Nothing,
    {
        Reaction {
            script: Script::one(Action::CmdLine(CmdLineOp::Pos { pos, level })),
            repaint: Repaint::Nothing,
        }
    }

    pub fn cmdline_special_char(&self, c: String, shift: bool, level: u64) -> (reaction: Reaction)
        ensures
            reaction.script@ == seq![
                Action::CmdLine(CmdLineOp::SpecialChar { c: c@, shift, level }),
            ],
            reaction.repaint == Repaint::Nothing,
    {
        Reaction {
            script: Script::one(Action::CmdLine(CmdLineOp::SpecialChar { c, shift, level })),
            repaint: Repaint::Nothing,
        }
    }
}

/// Makes the cursor busy, or ends that.
pub open spec fn busy_actions(busy: bool) -> Actions {
    if busy {
        seq![Action::Cursor(CursorOp::BusyOn)]
    } else {
        seq![Action::Cursor(CursorOp::BusyOff)]
    }
}

/// Hides a level of the command line; the cursor is not busy any more.
pub open spec fn cmdline_hide_actions(level: u64) -> Actions {
    seq![Action::CmdLine(CmdLineOp::HideLevel(level))] + busy_actions(false)
}

/// Hides the block of lines; the cursor is not busy any more.
pub open spec fn cmdline_block_hide_actions() -> Actions {
    seq![Action::CmdLine(CmdLineOp::BlockHide)] + busy_actions(false)
}

} // verus!
