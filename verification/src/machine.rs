//! The shell as a mathematical state machine: its state, what each event makes of it, and what
//! each event asks to be done.
use crate::action::{
    Action, DrawOp, Failure, ModelOp, NvimRequest, Question, RepaintMode, TimerOp,
};
use crate::grid::UiModel;
use crate::options::ShellOptionsView;
use crate::render_state::{ColorChoice, ColorModel, RenderStateView, Surface};
use vstd::prelude::*;

verus! {

/// Actions in the order in which they are carried out.
pub type Actions = Seq<Action<Seq<char>>>;

/// How long a resize waits for another one that replaces it, in milliseconds.
pub const RESIZE_DELAY_MS: u32 = 200;

/// How far the start of neovim has come.
#[derive(Clone, Copy, Debug, PartialEq, Eq, Structural)]
pub enum NvimStatus {
    Uninitialized,
    InProgress,
    Initialized,
    Error,
}

/// The mode of neovim, as far as pasting depends on it.
#[derive(Clone, Copy, Debug, PartialEq, Eq, Structural)]
pub enum NvimMode {
    Normal,
    Insert,
    Other,
}

/// The state of the shell. `A` stands for the attributes of text.
pub struct StateView<A> {
    /// The size of the grid.
    pub model: UiModel,
    /// The attributes of the text that comes next.
    pub cur_attrs: Option<A>,
    /// Whether neovim wants to hear of the mouse.
    pub mouse_enabled: bool,
    pub nvim: NvimStatus,
    /// Whether the text cursor is there.
    pub cursor: bool,
    pub render_state: RenderStateView,
    /// The back buffer.
    pub surface: Option<Surface>,
    /// Whether drawing goes through the back buffer.
    pub enable_double_buffer: bool,
    /// The rows and columns asked for last, or -1 where no request counts.
    pub resize_request: (i64, i64),
    /// The columns and rows that go to neovim when the timer fires.
    pub resize_timer: Option<(usize, usize)>,
    pub options: ShellOptionsView,
    /// The numbers of the registered callbacks.
    pub detach_cb: Option<u64>,
    pub nvim_started_cb: Option<u64>,
    pub command_cb: Option<u64>,
}

/// One command for neovim, if it can be reached.
pub open spec fn command_if(connected: bool, command: Seq<char>) -> Actions {
    if connected {
        seq![Action::Nvim(NvimRequest::Command(command))]
    } else {
        seq![]
    }
}

/// A call of a callback, if one is registered.
pub open spec fn callback_if(callback: Option<u64>) -> Actions {
    match callback {
        Some(id) => seq![Action::Callback(id)],
        None => seq![],
    }
}

/// How `count` rectangles are painted again: each is extended by the items of the text as it
/// was, then the text is shaped, then each is extended by the new items and painted.
pub open spec fn paint_rects(count: nat) -> Actions {
    Seq::new(count, |i: int| Action::Draw(DrawOp::ExtendRect(i as usize))) + seq![
        Action::Model(ModelOp::ShapeDirty),
    ] + Seq::new(
        2 * count,
        |i: int|
            if i % 2 == 0 {
                Action::Draw(DrawOp::ExtendRect((i / 2) as usize))
            } else {
                Action::Draw(DrawOp::QueueRect((i / 2) as usize))
            },
    )
}

/// How everything is painted again.
pub open spec fn paint_all() -> Actions {
    seq![Action::Model(ModelOp::ShapeDirty), Action::Draw(DrawOp::QueueAll)]
}

/// What painting asks to be done.
pub open spec fn paint(mode: RepaintMode) -> Actions {
    match mode {
        RepaintMode::All => paint_all(),
        RepaintMode::Area(_) | RepaintMode::AreaList(_) => paint_rects(mode.areas().len()),
        RepaintMode::Nothing => seq![],
    }
}

/// What a new font asks to be done.
pub open spec fn font_actions(desc: Seq<char>) -> Actions {
    seq![
        Action::UpdateFont(desc),
        Action::Model(ModelOp::ClearGlyphs),
        Action::Ask(Question::GridSize),
    ] + paint_all()
}

/// What to draw.
#[derive(Clone, Copy, Debug, PartialEq, Eq, Structural)]
pub enum Picture {
    /// The grid, by way of the back buffer.
    DoubleBuffer,
    /// The grid.
    Direct,
    /// A notice that neovim is being started.
    Initializing,
    Nothing,
}

impl<A> StateView<A> {
    /// The state at the start.
    pub open spec fn initial(options: ShellOptionsView, enable_double_buffer: bool) -> Self {
        StateView {
            model: UiModel { rows: 0, columns: 0 },
            cur_attrs: None,
            mouse_enabled: true,
            nvim: NvimStatus::Uninitialized,
            cursor: false,
            render_state: RenderStateView::initial(),
            surface: None,
            enable_double_buffer,
            resize_request: (-1i64, -1i64),
            resize_timer: None,
            options,
            detach_cb: None,
            nvim_started_cb: None,
            command_cb: None,
        }
    }

    /// What every state that the shell can reach satisfies: the pending resize is the one that
    /// was asked for last, and there is no back buffer without double buffering.
    pub open spec fn inv(self) -> bool {
        &&& self.resize_timer matches Some((columns, rows)) ==> self.resize_request == (
            rows as i64,
            columns as i64,
        )
        &&& self.surface is Some ==> self.enable_double_buffer
    }

    /// Whether the back buffer has to be created for a drawing area of this size.
    pub open spec fn surface_wanted(self, width: i32, height: i32) -> bool {
        self.enable_double_buffer && self.surface != Some(Surface { width, height })
    }

    pub open spec fn resize_surface(self, width: i32, height: i32) -> Self {
        if self.surface_wanted(width, height) {
            StateView { surface: Some(Surface { width, height }), ..self }
        } else {
            self
        }
    }

    pub open spec fn resize_surface_actions(self, width: i32, height: i32) -> Actions {
        if self.surface_wanted(width, height) {
            seq![Action::Draw(DrawOp::CreateSurface { width, height })]
        } else {
            seq![]
        }
    }

    /// Whether a grid size is neither the present one nor the one asked for last.
    pub open spec fn resize_wanted(self, columns: usize, rows: usize) -> bool {
        &&& !(self.model.rows == rows && self.model.columns == columns)
        &&& self.resize_request != (rows as i64, columns as i64)
    }

    pub open spec fn try_nvim_resize(self, columns: usize, rows: usize) -> Self {
        if self.resize_wanted(columns, rows) {
            StateView {
                resize_request: (rows as i64, columns as i64),
                resize_timer: Some((columns, rows)),
                ..self
            }
        } else {
            self
        }
    }

    pub open spec fn try_nvim_resize_actions(self, columns: usize, rows: usize) -> Actions {
        if !self.resize_wanted(columns, rows) {
            seq![]
        } else if self.resize_timer is Some {
            seq![
                Action::Timer(TimerOp::Cancel),
                Action::Timer(TimerOp::Start { delay_ms: RESIZE_DELAY_MS }),
            ]
        } else {
            seq![Action::Timer(TimerOp::Start { delay_ms: RESIZE_DELAY_MS })]
        }
    }

    pub open spec fn resize_timer_fired(self) -> Self {
        StateView { resize_timer: None, ..self }
    }

    pub open spec fn resize_timer_actions(self, connected: bool) -> Actions {
        match self.resize_timer {
            Some((columns, rows)) => if connected {
                seq![
                    Action::Nvim(
                        NvimRequest::TryResize { columns: columns as u64, rows: rows as u64 },
                    ),
                ]
            } else {
                seq![]
            },
            None => seq![],
        }
    }

    pub open spec fn close_popup_actions(self, popup_open: bool, connected: bool) -> Actions {
        if popup_open && connected {
            seq![Action::Nvim(NvimRequest::Input { keys: "<Esc>"@, failure: Failure::Report })]
        } else {
            seq![]
        }
    }

    pub open spec fn edit_paste_actions(
        self,
        clipboard: Seq<char>,
        mode: NvimMode,
        connected: bool,
    ) -> Actions {
        if !connected {
            seq![]
        } else if mode is Insert || mode is Normal {
            seq![Action::Nvim(NvimRequest::Command("normal! \""@ + clipboard + "P"@))]
        } else {
            seq![Action::Nvim(NvimRequest::InputAsync("<C-r>"@ + clipboard))]
        }
    }

    pub open spec fn start_nvim_initialization(self) -> Self {
        if self.nvim is Uninitialized {
            StateView { nvim: NvimStatus::InProgress, ..self }
        } else {
            self
        }
    }

    pub open spec fn init_nvim(self, columns: usize, rows: usize) -> Self {
        if self.nvim is Uninitialized {
            StateView {
                nvim: NvimStatus::InProgress,
                model: UiModel { rows: (rows as u64) as usize, columns: (columns as u64) as usize },
                ..self
            }
        } else {
            self
        }
    }

    pub open spec fn nvim_failed(self) -> Self {
        StateView { nvim: NvimStatus::Error, ..self }
    }

    /// Neovim may not have heard of a size whose timer has fired, so that request does not count
    /// any more.
    pub open spec fn set_nvim_initialized(self) -> Self {
        StateView {
            nvim: NvimStatus::Initialized,
            resize_request: if self.resize_timer is None {
                (-1i64, -1i64)
            } else {
                self.resize_request
            },
            ..self
        }
    }

    /// Neovim may be started again.
    pub open spec fn session_ended(self) -> Self {
        StateView { nvim: NvimStatus::Uninitialized, ..self }
    }

    pub open spec fn attach_cursor(self) -> Self {
        StateView { cursor: true, ..self }
    }

    pub open spec fn set_font_desc(self, desc: Seq<char>) -> Self {
        StateView {
            render_state: RenderStateView { font_desc: desc, ..self.render_state },
            ..self
        }
    }

    pub open spec fn set_colors(self, color_model: ColorModel) -> Self {
        StateView { render_state: RenderStateView { color_model, ..self.render_state }, ..self }
    }

    pub open spec fn on_update_bg(self, bg: i64) -> Self {
        self.set_colors(
            ColorModel {
                bg_color: ColorChoice::from_number(bg, ColorChoice::Black),
                ..self.render_state.color_model
            },
        )
    }

    pub open spec fn on_update_fg(self, fg: i64) -> Self {
        self.set_colors(
            ColorModel {
                fg_color: ColorChoice::from_number(fg, ColorChoice::White),
                ..self.render_state.color_model
            },
        )
    }

    pub open spec fn on_update_sp(self, sp: i64) -> Self {
        self.set_colors(
            ColorModel {
                sp_color: ColorChoice::from_number(sp, ColorChoice::Red),
                ..self.render_state.color_model
            },
        )
    }

    /// Whether the grid has another size than neovim says.
    pub open spec fn grid_differs(self, columns: u64, rows: u64) -> bool {
        self.model.columns != columns as usize || self.model.rows != rows as usize
    }

    pub open spec fn on_resize(self, columns: u64, rows: u64) -> Self {
        StateView {
            model: UiModel { rows: rows as usize, columns: columns as usize },
            ..self
        }
    }

    pub open spec fn on_resize_actions(self, columns: u64, rows: u64, connected: bool) -> Actions {
        (if self.grid_differs(columns, rows) {
            seq![Action::Model(ModelOp::New { rows, columns })]
        } else {
            seq![]
        }) + (if connected {
            seq![Action::Nvim(NvimRequest::UpdateTheme)]
        } else {
            seq![]
        })
    }

    /// What a draw event shows.
    pub open spec fn picture(self) -> Picture {
        match self.nvim {
            NvimStatus::Initialized => if self.enable_double_buffer {
                Picture::DoubleBuffer
            } else {
                Picture::Direct
            },
            NvimStatus::InProgress => Picture::Initializing,
            _ => Picture::Nothing,
        }
    }
}

} // verus!
