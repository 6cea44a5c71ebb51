//! The start of neovim, as the shell sees it, and its end.
use crate::action::{Action, ClientOp, CursorOp, ErrorPageOp, ModelOp, Question, Script};
use crate::grid::UiModel;
use crate::init::{InitStage, NvimInit, NvimInitView};
use crate::machine::{callback_if, NvimStatus, Picture};
use crate::mouse::Inhibit;
use crate::render_state::RenderState;
use crate::state::State;
use vstd::prelude::*;

verus! {

/// The answer to a draw event.
#[derive(Clone, Copy, Debug, PartialEq, Eq, Structural)]
pub struct Drawn {
    /// What to draw.
    pub picture: Picture,
    pub inhibit: Inhibit,
}

impl<A> State<A> {
    /// The drawing area has got its size, in cells: time to start neovim, unless it was started
    /// before. The script makes the grid fit, the rest is the work of starting neovim.
    pub fn init_nvim(&mut self, columns: usize, rows: usize) -> (start: Option<(Script, NvimInit)>)
        ensures
            final(self)@ == old(self)@.init_nvim(columns, rows),
            start is Some <==> old(self)@.nvim is Uninitialized,
            start matches Some((script, init)) ==> {
                &&& script@ == seq![
                    Action::<Seq<char>>::Model(
                        ModelOp::New { rows: rows as u64, columns: columns as u64 },
                    ),
                ]
                &&& init@ == NvimInitView {
                    options: old(self)@.options,
                    columns: columns as u64,
                    rows: rows as u64,
                    stage: InitStage::Idle,
                }
            },
    {
        if !self.start_nvim_initialization() {
            return None;
        }
        self.model = UiModel::new(rows as u64, columns as u64);
        let script = Script::one(
            Action::Model(ModelOp::New { rows: rows as u64, columns: columns as u64 }),
        );
        Some((script, NvimInit::new(self.options.clone(), columns as u64, rows as u64)))
    }

    /// Neovim could not be started.
    pub fn show_nvim_start_error(&mut self, source: String, cmd: String) -> (script: Script)
        ensures
            final(self)@ == old(self)@.nvim_failed(),
            script@ == seq![
                Action::ErrorPage(ErrorPageOp::StartError { source: source@, cmd: cmd@ }),
                Action::ErrorPage(ErrorPageOp::Show),
            ],
    {
        let ghost texts = (source@, cmd@);
        self.nvim = NvimStatus::Error;
        let mut script = Script::one(Action::ErrorPage(ErrorPageOp::StartError { source, cmd }));
        script.append(Self::show_error_area());
        assert(script@ =~= seq![
            Action::ErrorPage(ErrorPageOp::StartError { source: texts.0, cmd: texts.1 }),
            Action::ErrorPage(ErrorPageOp::Show),
        ]);
        script
    }

    /// Neovim was started, but the user interface could not be attached.
    pub fn show_nvim_init_error(&mut self, source: String) -> (script: Script)
        ensures
            final(self)@ == old(self)@.nvim_failed(),
            script@ == seq![
                Action::ErrorPage(ErrorPageOp::InitError { source: source@ }),
                Action::ErrorPage(ErrorPageOp::Show),
            ],
    {
        let ghost text = source@;
        self.nvim = NvimStatus::Error;
        let mut script = Script::one(Action::ErrorPage(ErrorPageOp::InitError { source }));
        script.append(Self::show_error_area());
        assert(script@ =~= seq![
            Action::ErrorPage(ErrorPageOp::InitError { source: text }),
            Action::ErrorPage(ErrorPageOp::Show),
        ]);
        script
    }

    /// Shows the error page in place of the grid.
    pub fn show_error_area() -> (script: Script)
        ensures
            script@ == seq![Action::<Seq<char>>::ErrorPage(ErrorPageOp::Show)],
    {
        Script::one(Action::ErrorPage(ErrorPageOp::Show))
    }

    /// The user interface is attached. The drawing area may have changed its size meanwhile, so
    /// the grid is measured again and a resize is forced: a request counts only while its timer
    /// runs, since neovim may not have heard of one whose timer has fired.
    pub fn set_nvim_initialized(&mut self) -> (script: Script)
        requires
            old(self)@.cursor,
        ensures
            final(self)@ == old(self)@.set_nvim_initialized(),
            old(self)@.inv() ==> final(self)@.inv(),
            script@ == seq![
                Action::<Seq<char>>::Client(ClientOp::AsyncToSync),
                Action::Ask(Question::GridSize),
                Action::Cursor(CursorOp::Start),
            ],
    {
        self.nvim = NvimStatus::Initialized;
        if self.resize_timer.is_none() {
            self.resize_request = (-1, -1);
        }
        let mut script = Script::one(Action::Client(ClientOp::AsyncToSync));
        script.push(Action::Ask(Question::GridSize));
        script.push(Action::Cursor(CursorOp::Start));
        assert(script@ =~= seq![
            Action::<Seq<char>>::Client(ClientOp::AsyncToSync),
            Action::Ask(Question::GridSize),
            Action::Cursor(CursorOp::Start),
        ]);
        script
    }

    /// Neovim has started, and the shell has taken note.
    pub fn nvim_started(&self) -> (script: Script)
        ensures
            script@ == callback_if(self@.nvim_started_cb),
    {
        match self.nvim_started_cb {
            Some(id) => Script::one(Action::Callback(id)),
            None => Script::empty(),
        }
    }

    /// The session with neovim is over. The shell chooses to count neovim as never started then, so
    /// that it is started again when the drawing area next gets a size.
    pub fn session_ended(&mut self) -> (script: Script)
        ensures
            final(self)@ == old(self)@.session_ended(),
            script@ == seq![Action::<Seq<char>>::Client(ClientOp::Clear)] + callback_if(
                old(self)@.detach_cb,
            ),
    {
        self.nvim = NvimStatus::Uninitialized;
        let mut script = Script::one(Action::Client(ClientOp::Clear));
        if let Some(id) = self.detach_cb {
            script.push(Action::Callback(id));
        }
        assert(script@ =~= seq![Action::<Seq<char>>::Client(ClientOp::Clear)] + callback_if(
            old(self)@.detach_cb,
        ));
        script
    }

    pub fn is_nvim_initialized(&self) -> (initialized: bool)
        ensures
            initialized == (self@.nvim is Initialized),
    {
        match self.nvim {
            NvimStatus::Initialized => true,
            _ => false,
        }
    }

    /// Whether neovim is being started.
    pub fn is_nvim_initializing(&self) -> (initializing: bool)
        ensures
            initializing == (self@.nvim is InProgress),
    {
        match self.nvim {
            NvimStatus::InProgress => true,
            _ => false,
        }
    }

    /// Draws. The grid cannot be drawn without the cursor, nor by way of a back buffer that is not
    /// there.
    pub fn gtk_draw(&self) -> (drawn: Drawn)
        requires
            self@.picture() !is Nothing ==> self@.cursor,
            self@.picture() is DoubleBuffer ==> self@.surface is Some,
        ensures
            drawn == (Drawn { picture: self@.picture(), inhibit: Inhibit(false) }),
    {
        let picture = match self.nvim {
            NvimStatus::Initialized => if self.enable_double_buffer {
                Picture::DoubleBuffer
            } else {
                Picture::Direct
            },
            NvimStatus::InProgress => Picture::Initializing,
            _ => Picture::Nothing,
        };
        Drawn { picture, inhibit: Inhibit(false) }
    }

    /// The font and the colours to draw with.
    pub fn render_state(&self) -> (render_state: &RenderState)
        ensures
            render_state@ == self@.render_state,
    {
        &self.render_state
    }

    /// Whether neovim wants to hear of the mouse.
    pub fn mouse_enabled(&self) -> (enabled: bool)
        ensures
            enabled == self@.mouse_enabled,
    {
        self.mouse_enabled
    }

    /// Whether the text cursor is there.
    pub fn has_cursor(&self) -> (there: bool)
        ensures
            there == self@.cursor,
    {
        self.cursor
    }

    /// Whether drawing goes through the back buffer.
    pub fn double_buffered(&self) -> (double_buffered: bool)
        ensures
            double_buffered == self@.enable_double_buffer,
    {
        self.enable_double_buffer
    }

    /// Whether the back buffer is there.
    pub fn has_surface(&self) -> (there: bool)
        ensures
            there == (self@.surface is Some),
    {
        self.surface.is_some()
    }
}

} // verus!
