//! What the shell asks of the world around it.
//!
//! The shell itself touches no widget and no pipe. A handler changes the shell's state and
//! returns a [`Script`]: the actions that the caller carries out, one after the other, in
//! the order given.
use crate::grid::ModelRect;
use vstd::prelude::*;

verus! {

/// What becomes of a request to neovim that fails.
#[derive(Clone, Copy, Debug, PartialEq, Eq, Structural)]
pub enum Failure {
    /// The error is reported to the user.
    Report,
    /// The program stops.
    Panic,
}

/// A request to neovim.
#[derive(Debug, PartialEq, Eq)]
pub enum NvimRequest<S> {
    /// Execute an Ex command; nobody waits, a failure is reported.
    Command(S),
    /// Send keys and wait for the answer.
    Input { keys: S, failure: Failure },
    /// Send keys; nobody waits, a failure is reported.
    InputAsync(S),
    /// Send text that the input method has composed.
    ImInput(S),
    /// Ask for another grid size; nobody waits, a failure is reported.
    TryResize { columns: u64, rows: u64 },
    /// Detach the user interface and wait; a failure stops the program.
    Detach,
    /// Read the colours that the current theme gives to the widgets.
    UpdateTheme,
}

/// A call on the grid of cells.
#[derive(Clone, Copy, Debug, PartialEq, Eq, Structural)]
pub enum ModelOp {
    /// Replace the grid by an empty one.
    New { rows: u64, columns: u64 },
    /// Move the cursor; the grid reports the areas that changed.
    SetCursor { row: usize, col: usize },
    /// Empty all cells.
    Clear,
    /// Empty the cells from the cursor to the end of its line; the grid reports their area.
    EolClear,
    /// Set the region that scrolls.
    SetScrollRegion { top: u64, bot: u64, left: u64, right: u64 },
    /// Scroll the region by so many lines; the grid reports its area.
    Scroll(i64),
    /// Forget the shaped glyphs of all cells.
    ClearGlyphs,
    /// Shape the glyphs of the cells that changed.
    ShapeDirty,
}

/// A call on the text cursor.
#[derive(Clone, Copy, Debug, PartialEq, Eq, Structural)]
pub enum CursorOp {
    EnterFocus,
    LeaveFocus,
    BusyOn,
    BusyOff,
    /// Begin the blinking anew.
    ResetState,
    Start,
    /// Take over the shape that belongs to the current mode.
    SetModeInfo,
}

/// A call on the input method.
#[derive(Clone, Copy, Debug, PartialEq, Eq, Structural)]
pub enum ImOp {
    FocusIn,
    FocusOut,
    /// Tell where the text appears: the area of these cells.
    SetCursorLocation(ModelRect),
    Reset,
}

/// A call on the command line window.
#[derive(Debug, PartialEq, Eq)]
pub enum CmdLineOp<S> {
    /// Take over the cursor shape that belongs to the current mode.
    SetModeInfo,
    HideLevel(u64),
    BlockHide,
    Pos { pos: u64, level: u64 },
    SpecialChar { c: S, shift: bool, level: u64 },
}

/// A call on the completion menu.
#[derive(Clone, Copy, Debug, PartialEq, Eq, Structural)]
pub enum PopupOp {
    Hide,
    Select(i64),
}

/// A call on the drawing area. The numbers are positions in the list of rectangles that
/// are painted again.
#[derive(Clone, Copy, Debug, PartialEq, Eq, Structural)]
pub enum DrawOp {
    /// Paint everything again.
    QueueAll,
    /// Extend a rectangle by the items of text that reach out of it.
    ExtendRect(usize),
    /// Extend a rectangle a last time by the ink of its glyphs and paint it again.
    QueueRect(usize),
    /// Create the back buffer anew, in this size.
    CreateSurface { width: i32, height: i32 },
}

/// What the shell has to be told before it goes on. The answer goes to the handler named, and
/// the script that it returns is carried out before the next action.
#[derive(Clone, Copy, Debug, PartialEq, Eq, Structural)]
pub enum Question {
    /// How many columns and rows fit in the drawing area? For `State::try_nvim_resize`.
    GridSize,
    /// In which row and column is the cursor? For `State::set_im_location`.
    CursorCell,
    /// Which cells does this mean? For `State::on_redraw`.
    Redraw(Repaint),
}

/// A call on the timer of the pending resize.
#[derive(Clone, Copy, Debug, PartialEq, Eq, Structural)]
pub enum TimerOp {
    Cancel,
    /// Call `State::resize_timer_fired` once, after the delay.
    Start { delay_ms: u32 },
}

/// A call on the connection to neovim.
#[derive(Clone, Copy, Debug, PartialEq, Eq, Structural)]
pub enum ClientOp {
    /// From now on the connection is used by the user interface alone.
    AsyncToSync,
    /// Drop the connection.
    Clear,
}

/// A call on the page that shows errors.
#[derive(Debug, PartialEq, Eq)]
pub enum ErrorPageOp<S> {
    StartError { source: S, cmd: S },
    InitError { source: S },
    /// Show the page in place of the grid.
    Show,
}

/// A mouse button or a wheel, as neovim names it.
#[derive(Clone, Copy, Debug, PartialEq, Eq, Structural)]
pub enum MouseKey {
    LeftMouse,
    MiddleMouse,
    RightMouse,
    LeftRelease,
    MiddleRelease,
    RightRelease,
    LeftDrag,
    ScrollWheelRight,
    ScrollWheelLeft,
    ScrollWheelUp,
    ScrollWheelDown,
}

/// One thing to do.
#[derive(Debug, PartialEq, Eq)]
pub enum Action<S> {
    Nvim(NvimRequest<S>),
    Model(ModelOp),
    Cursor(CursorOp),
    Im(ImOp),
    CmdLine(CmdLineOp<S>),
    Popup(PopupOp),
    Draw(DrawOp),
    Ask(Question),
    Timer(TimerOp),
    Client(ClientOp),
    ErrorPage(ErrorPageOp<S>),
    /// Call `State::mouse_input` so many times, each time with the key in neovim's notation and
    /// the cell under the pointer, and carry out what it returns.
    Mouse { key: MouseKey, times: usize },
    /// Note in the settings that the font comes from neovim.
    FontFromRpc,
    /// Draw with this font.
    UpdateFont(S),
    /// Enter a mode: its name and its place in the list of cursor shapes.
    UpdateMode { mode: S, idx: usize },
    /// Call the callback that was registered under this number.
    Callback(u64),
}

impl View for NvimRequest<String> {
    type V = NvimRequest<Seq<char>>;

    open spec fn view(&self) -> NvimRequest<Seq<char>> {
        match *self {
            NvimRequest::Command(s) => NvimRequest::Command(s@),
            NvimRequest::Input { keys, failure } => NvimRequest::Input { keys: keys@, failure },
            NvimRequest::InputAsync(s) => NvimRequest::InputAsync(s@),
            NvimRequest::ImInput(s) => NvimRequest::ImInput(s@),
            NvimRequest::TryResize { columns, rows } => NvimRequest::TryResize { columns, rows },
            NvimRequest::Detach => NvimRequest::Detach,
            NvimRequest::UpdateTheme => NvimRequest::UpdateTheme,
        }
    }
}

impl View for CmdLineOp<String> {
    type V = CmdLineOp<Seq<char>>;

    open spec fn view(&self) -> CmdLineOp<Seq<char>> {
        match *self {
            CmdLineOp::SetModeInfo => CmdLineOp::SetModeInfo,
            CmdLineOp::HideLevel(level) => CmdLineOp::HideLevel(level),
            CmdLineOp::BlockHide => CmdLineOp::BlockHide,
            CmdLineOp::Pos { pos, level } => CmdLineOp::Pos { pos, level },
            CmdLineOp::SpecialChar { c, shift, level } => CmdLineOp::SpecialChar {
                c: c@,
                shift,
                level,
            },
        }
    }
}

impl View for ErrorPageOp<String> {
    type V = ErrorPageOp<Seq<char>>;

    open spec fn view(&self) -> ErrorPageOp<Seq<char>> {
        match *self {
            ErrorPageOp::StartError { source, cmd } => ErrorPageOp::StartError {
                source: source@,
                cmd: cmd@,
            },
            ErrorPageOp::InitError { source } => ErrorPageOp::InitError { source: source@ },
            ErrorPageOp::Show => ErrorPageOp::Show,
        }
    }
}

impl View for Action<String> {
    type V = Action<Seq<char>>;

    open spec fn view(&self) -> Action<Seq<char>> {
        match *self {
            Action::Nvim(request) => Action::Nvim(request@),
            Action::Model(op) => Action::Model(op),
            Action::Cursor(op) => Action::Cursor(op),
            Action::Im(op) => Action::Im(op),
            Action::CmdLine(op) => Action::CmdLine(op@),
            Action::Popup(op) => Action::Popup(op),
            Action::Draw(op) => Action::Draw(op),
            Action::Ask(question) => Action::Ask(question),
            Action::Timer(op) => Action::Timer(op),
            Action::Client(op) => Action::Client(op),
            Action::ErrorPage(op) => Action::ErrorPage(op@),
            Action::Mouse { key, times } => Action::Mouse { key, times },
            Action::FontFromRpc => Action::FontFromRpc,
            Action::UpdateFont(s) => Action::UpdateFont(s@),
            Action::UpdateMode { mode, idx } => Action::UpdateMode { mode: mode@, idx },
            Action::Callback(id) => Action::Callback(id),
        }
    }
}

/// Actions in the order in which they are carried out.
#[derive(Debug, PartialEq, Eq)]
pub struct Script {
    pub actions: Vec<Action<String>>,
}

impl View for Script {
    type V = Seq<Action<Seq<char>>>;

    open spec fn view(&self) -> Seq<Action<Seq<char>>> {
        self.actions@.map_values(|a: Action<String>| a@)
    }
}

impl Script {
    /// Nothing to do.
    pub fn empty() -> (script: Script)
        ensures
            script@ == Seq::<Action<Seq<char>>>::empty(),
    {
        let script = Script { actions: Vec::new() };
        assert(script@ =~= Seq::<Action<Seq<char>>>::empty());
        script
    }

    /// One thing to do.
    pub fn one(action: Action<String>) -> (script: Script)
        ensures
            script@ == seq![action@],
    {
        let mut script = Script::empty();
        script.push(action);
        assert(script@ =~= seq![action@]);
        script
    }

    /// Adds an action at the end.
    pub fn push(&mut self, action: Action<String>)
        ensures
            final(self)@ == old(self)@.push(action@),
    {
        self.actions.push(action);
        assert(self@ =~= old(self)@.push(action@));
    }

    /// Adds the actions of another script at the end.
    pub fn append(&mut self, mut other: Script)
        ensures
            final(self)@ == old(self)@ + other@,
    {
        let ghost added = other@;
        self.actions.append(&mut other.actions);
        assert(self@ =~= old(self)@ + added);
    }
}

/// What has to be painted again after an event, in terms of what the grid knows once the
/// actions of the event are carried out.
#[derive(Clone, Copy, Debug, PartialEq, Eq, Structural)]
pub enum Repaint {
    /// Everything.
    All,
    /// The cell of the cursor.
    CursorPoint,
    /// The area that the grid reported as changed.
    ChangedArea,
    /// All areas that the grid reported as changed.
    ChangedAreas,
    Nothing,
}

/// What has to be painted again, as cells.
#[derive(Debug, PartialEq, Eq)]
pub enum RepaintMode {
    All,
    Area(ModelRect),
    AreaList(Vec<ModelRect>),
    Nothing,
}

impl RepaintMode {
    /// The rectangles that are painted again one by one.
    pub open spec fn areas(self) -> Seq<ModelRect> {
        match self {
            RepaintMode::Area(rect) => seq![rect],
            RepaintMode::AreaList(list) => list@,
            _ => Seq::empty(),
        }
    }

    /// The rectangles that are painted again one by one, in the order in which
    /// [`DrawOp`] counts them.
    pub fn rects(&self) -> (rects: Vec<ModelRect>)
        ensures
            rects@ == self.areas(),
    {
        let mut rects: Vec<ModelRect> = Vec::new();
        match self {
            RepaintMode::Area(rect) => rects.push(*rect),
            RepaintMode::AreaList(list) => {
                let mut i: usize = 0;
                while i < list.len()
                    invariant
                        i <= list.len(),
                        rects@ =~= list@.take(i as int),
                    decreases list.len() - i,
                {
                    rects.push(list[i]);
                    i = i + 1;
                }
            },
            _ => {},
        }
        assert(rects@ =~= self.areas());
        rects
    }
}

impl Repaint {
    /// The cells meant, given the cell of the cursor and the areas that the grid reported.
    pub fn resolve(self, cursor: ModelRect, changed: Vec<ModelRect>) -> (mode: RepaintMode)
        requires
            self is ChangedArea ==> changed@.len() > 0,
        ensures
            mode == match self {
                Repaint::All => RepaintMode::All,
                Repaint::CursorPoint => RepaintMode::Area(cursor),
                Repaint::ChangedArea => RepaintMode::Area(changed@[0]),
                Repaint::ChangedAreas => RepaintMode::AreaList(changed),
                Repaint::Nothing => RepaintMode::Nothing,
            },
    {
        match self {
            Repaint::All => RepaintMode::All,
            Repaint::CursorPoint => RepaintMode::Area(cursor),
            Repaint::ChangedArea => RepaintMode::Area(changed[0]),
            Repaint::ChangedAreas => RepaintMode::AreaList(changed),
            Repaint::Nothing => RepaintMode::Nothing,
        }
    }
}

/// The answer to a redraw event of neovim.
#[derive(Debug, PartialEq, Eq)]
pub struct Reaction {
    /// What to do at once.
    pub script: Script,
    /// What to paint again when the batch of events is over.
    pub repaint: Repaint,
}

} // verus!
