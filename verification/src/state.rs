//! The state of the shell and the handlers that change it.
use crate::action::{Action, DrawOp, Failure, ImOp, ModelOp, NvimRequest, Question, Script, TimerOp};
use crate::grid::{ModelRect, UiModel};
use crate::machine::{
    command_if, font_actions, Actions, NvimMode, NvimStatus, StateView, RESIZE_DELAY_MS,
};
use crate::options::ShellOptions;
use crate::render_state::{RenderState, Surface};
use crate::text::{is_one, joined, mouse_keys, mouse_text, trim, trimmed};
use neovim_lib::Value;
use vstd::prelude::*;
use vstd::string::StringExecFns;

pub mod lifecycle;
pub mod redraw;

verus! {

/// Declares `neovim_lib::Value`, a value of the MessagePack protocol. The shell passes such values
/// on and never looks inside.
#[verifier::external_type_specification]
#[verifier::external_body]
pub struct ExValue(Value);

/// The state of the shell. `A` stands for the attributes of text.
///
/// Where a handler takes `connected`, it says whether neovim can be reached at the moment.
#[derive(Debug)]
pub struct State<A> {
    model: UiModel,
    cur_attrs: Option<A>,
    mouse_enabled: bool,
    nvim: NvimStatus,
    cursor: bool,
    render_state: RenderState,
    surface: Option<Surface>,
    enable_double_buffer: bool,
    resize_request: (i64, i64),
    resize_timer: Option<(usize, usize)>,
    options: ShellOptions,
    detach_cb: Option<u64>,
    nvim_started_cb: Option<u64>,
    command_cb: Option<u64>,
}

impl<A> View for State<A> {
    type V = StateView<A>;

    closed spec fn view(&self) -> StateView<A> {
        StateView {
            model: self.model,
            cur_attrs: self.cur_attrs,
            mouse_enabled: self.mouse_enabled,
            nvim: self.nvim,
            cursor: self.cursor,
            render_state: self.render_state@,
            surface: self.surface,
            enable_double_buffer: self.enable_double_buffer,
            resize_request: self.resize_request,
            resize_timer: self.resize_timer,
            options: self.options@,
            detach_cb: self.detach_cb,
            nvim_started_cb: self.nvim_started_cb,
            command_cb: self.command_cb,
        }
    }
}

/// Whether the value of the variable `NVIM_GTK_DOUBLE_BUFFER` turns double buffering on.
pub fn double_buffer_enabled(value: Option<&str>) -> (enabled: bool)
    ensures
        enabled == (value matches Some(text) && trimmed(text@) == "1"@),
{
    match value {
        Some(text) => is_one(trim(text)),
        None => false,
    }
}

impl<A> State<A> {
    /// The state before anything has happened. `double_buffer` is the value of the variable
    /// `NVIM_GTK_DOUBLE_BUFFER`, where it is set.
    pub fn new(options: ShellOptions, double_buffer: Option<&str>) -> (state: Self)
        ensures
            state@ == StateView::<A>::initial(
                options@,
                double_buffer matches Some(text) && trimmed(text@) == "1"@,
            ),
            state@.inv(),
    {
        State {
            model: UiModel::empty(),
            nvim: NvimStatus::Uninitialized,
            cur_attrs: None,
            mouse_enabled: true,
            cursor: false,
            render_state: RenderState::new(),
            surface: None,
            enable_double_buffer: double_buffer_enabled(double_buffer),
            resize_request: (-1, -1),
            resize_timer: None,
            options,
            detach_cb: None,
            nvim_started_cb: None,
            command_cb: None,
        }
    }

    /// Notes that the text cursor is there.
    pub fn attach_cursor(&mut self)
        ensures
            final(self)@ == old(self)@.attach_cursor(),
    {
        self.cursor = true;
    }

    /// Makes the back buffer fit a drawing area of this size.
    pub fn resize_surface(&mut self, width: i32, height: i32) -> (script: Script)
        ensures
            final(self)@ == old(self)@.resize_surface(width, height),
            script@ == old(self)@.resize_surface_actions(width, height),
    {
        if !self.enable_double_buffer {
            return Script::empty();
        }
        if let Some(surface) = self.surface {
            if surface.width == width && surface.height == height {
                return Script::empty();
            }
        }
        self.surface = Some(Surface::new(width, height));
        Script::one(Action::Draw(DrawOp::CreateSurface { width, height }))
    }

    /// Marks the start of neovim, unless it was started before. Says whether to start it.
    pub fn start_nvim_initialization(&mut self) -> (start: bool)
        ensures
            final(self)@ == old(self)@.start_nvim_initialization(),
            start == (old(self)@.nvim is Uninitialized),
    {
        match self.nvim {
            NvimStatus::Uninitialized => {
                self.nvim = NvimStatus::InProgress;
                true
            },
            _ => false,
        }
    }

    /// Registers the callback for the end of the session, or removes it.
    pub fn set_detach_cb(&mut self, cb: Option<u64>)
        ensures
            final(self)@ == (StateView { detach_cb: cb, ..old(self)@ }),
    {
        self.detach_cb = cb;
    }

    /// Registers the callback for the moment when neovim has started, or removes it.
    pub fn set_nvim_started_cb(&mut self, cb: Option<u64>)
        ensures
            final(self)@ == (StateView { nvim_started_cb: cb, ..old(self)@ }),
    {
        self.nvim_started_cb = cb;
    }

    /// Registers the callback for commands to the user interface, or removes it.
    pub fn set_nvim_command_cb(&mut self, cb: Option<u64>)
        ensures
            final(self)@ == (StateView { command_cb: cb, ..old(self)@ }),
    {
        self.command_cb = cb;
    }

    /// Draws with another font from now on.
    pub fn set_font_desc(&mut self, desc: &str) -> (script: Script)
        ensures
            final(self)@ == old(self)@.set_font_desc(desc@),
            script@ == font_actions(desc@),
    {
        self.render_state.font_desc = desc.to_owned();
        let mut script = Script::one(Action::UpdateFont(desc.to_owned()));
        script.push(Action::Model(ModelOp::ClearGlyphs));
        script.push(Action::Ask(Question::GridSize));
        script.push(Action::Model(ModelOp::ShapeDirty));
        script.push(Action::Draw(DrawOp::QueueAll));
        assert(script@ =~= font_actions(desc@));
        script
    }

    /// Draws with the font that neovim asks for.
    pub fn set_font(&mut self, font_desc: String) -> (script: Script)
        ensures
            final(self)@ == old(self)@.set_font_desc(font_desc@),
            script@ == seq![Action::FontFromRpc] + font_actions(font_desc@),
    {
        let mut script = Script::one(Action::FontFromRpc);
        script.append(self.set_font_desc(font_desc.as_str()));
        script
    }

    pub(crate) fn command(connected: bool, command: String) -> (script: Script)
        ensures
            script@ == command_if(connected, command@),
    {
        if connected {
            Script::one(Action::Nvim(NvimRequest::Command(command)))
        } else {
            Script::empty()
        }
    }

    pub fn open_file(&self, path: &str, connected: bool) -> (script: Script)
        ensures
            script@ == command_if(connected, "e "@ + path@),
    {
        Self::command(connected, joined("e ", path))
    }

    pub fn cd(&self, path: &str, connected: bool) -> (script: Script)
        ensures
            script@ == command_if(connected, "cd "@ + path@),
    {
        Self::command(connected, joined("cd ", path))
    }

    /// Closes the completion menu if it is open.
    pub fn close_popup_menu(&self, popup_open: bool, connected: bool) -> (script: Script)
        ensures
            script@ == self@.close_popup_actions(popup_open, connected),
    {
        if popup_open && connected {
            Script::one(
                Action::Nvim(
                    NvimRequest::Input { keys: "<Esc>".to_owned(), failure: Failure::Report },
                ),
            )
        } else {
            Script::empty()
        }
    }

    /// Passes on text that the input method has composed.
    pub fn im_commit(&self, ch: &str, connected: bool) -> (script: Script)
        ensures
            script@ == if connected {
                seq![Action::Nvim(NvimRequest::ImInput(ch@))]
            } else {
                Actions::empty()
            },
    {
        if connected {
            Script::one(Action::Nvim(NvimRequest::ImInput(ch.to_owned())))
        } else {
            Script::empty()
        }
    }

    /// Tells the input method where the cursor is.
    pub fn set_im_location(&self, row: usize, col: usize) -> (script: Script)
        ensures
            script@ == seq![
                Action::<Seq<char>>::Im(
                    ImOp::SetCursorLocation(
                        ModelRect { top: row, bot: row, left: col, right: col },
                    ),
                ),
                Action::Im(ImOp::Reset),
            ],
    {
        let mut script = Script::one(
            Action::Im(ImOp::SetCursorLocation(ModelRect::point(col, row))),
        );
        script.push(Action::Im(ImOp::Reset));
        assert(script@ =~= seq![
            Action::<Seq<char>>::Im(
                ImOp::SetCursorLocation(ModelRect { top: row, bot: row, left: col, right: col }),
            ),
            Action::Im(ImOp::Reset),
        ]);
        script
    }

    /// Asks for a grid of this size after a delay, unless the grid has it or it was asked for.
    /// A request that still waits is dropped.
    pub fn try_nvim_resize(&mut self, columns: usize, rows: usize) -> (script: Script)
        ensures
            final(self)@ == old(self)@.try_nvim_resize(columns, rows),
            script@ == old(self)@.try_nvim_resize_actions(columns, rows),
            old(self)@.inv() ==> final(self)@.inv(),
    {
        if self.model.rows == rows && self.model.columns == columns {
            return Script::empty();
        }
        let (requested_rows, requested_cols) = self.resize_request;
        if requested_rows == rows as i64 && requested_cols == columns as i64 {
            return Script::empty();
        }
        let mut script = Script::empty();
        if self.resize_timer.is_some() {
            script.push(Action::Timer(TimerOp::Cancel));
        }
        self.resize_request = (rows as i64, columns as i64);
        self.resize_timer = Some((columns, rows));
        script.push(Action::Timer(TimerOp::Start { delay_ms: RESIZE_DELAY_MS }));
        assert(script@ =~= old(self)@.try_nvim_resize_actions(columns, rows));
        script
    }

    /// The delay of a resize is over: the grid size goes to neovim.
    pub fn resize_timer_fired(&mut self, connected: bool) -> (script: Script)
        ensures
            final(self)@ == old(self)@.resize_timer_fired(),
            script@ == old(self)@.resize_timer_actions(connected),
    {
        let pending = self.resize_timer;
        self.resize_timer = None;
        match pending {
            Some((columns, rows)) => if connected {
                Script::one(
                    Action::Nvim(
                        NvimRequest::TryResize { columns: columns as u64, rows: rows as u64 },
                    ),
                )
            } else {
                Script::empty()
            },
            None => Script::empty(),
        }
    }

    /// Pastes a register.
    pub fn edit_paste(&self, clipboard: &str, mode: NvimMode, connected: bool) -> (script: Script)
        ensures
            script@ == self@.edit_paste_actions(clipboard@, mode, connected),
    {
        if !connected {
            return Script::empty();
        }
        match mode {
            NvimMode::Insert | NvimMode::Normal => {
                let mut paste_code = joined("normal! \"", clipboard);
                paste_code.append("P");
                Script::one(Action::Nvim(NvimRequest::Command(paste_code)))
            },
            NvimMode::Other => {
                Script::one(Action::Nvim(NvimRequest::InputAsync(joined("<C-r>", clipboard))))
            },
        }
    }

    /// The width that a popup window may have over a drawing area of this width.
    pub fn max_popup_width(allocated_width: i32) -> (width: i32)
        requires
            allocated_width >= i32::MIN + 20,
        ensures
            width == allocated_width - 20,
    {
        allocated_width - 20
    }

    /// A command to the user interface: the callback to call, with its arguments.
    pub fn on_command(&self, args: Vec<Value>) -> (call: Option<(u64, Vec<Value>)>)
        ensures
            call == match self@.command_cb {
                Some(id) => Some((id, args)),
                None => None,
            },
    {
        match self.command_cb {
            Some(id) => Some((id, args)),
            None => None,
        }
    }

    /// Sends a mouse key. `key` is the key with its modifiers in neovim's notation.
    pub fn mouse_input(&self, key: &str, col: u64, row: u64, connected: bool) -> (script: Script)
        ensures
            script@ == if connected {
                seq![
                    Action::Nvim(
                        NvimRequest::Input {
                            keys: mouse_keys(key@, col as nat, row as nat),
                            failure: Failure::Panic,
                        },
                    ),
                ]
            } else {
                Actions::empty()
            },
    {
        let keys = mouse_text(key, col, row);
        if connected {
            Script::one(Action::Nvim(NvimRequest::Input { keys, failure: Failure::Panic }))
        } else {
            Script::empty()
        }
    }
}

} // verus!
