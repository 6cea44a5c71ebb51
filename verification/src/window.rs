//! Focus, keys, drops and drawing: the events of the drawing area apart from the mouse.
use crate::action::{Action, CursorOp, ImOp, NvimRequest, Question, Repaint, Script};
use crate::machine::command_if;
use crate::mouse::{Handled, Inhibit};
use crate::state::State;
use crate::text::{argument_command, argument_text, optional_texts};
use vstd::prelude::*;

verus! {

/// What the drawing area shows while neovim is being started.
pub const LOADING_TEXT: &'static str = "Loading->";

/// Some of the bits by which a widget says which events it wants.
#[derive(Clone, Copy, Debug, PartialEq, Eq, Structural)]
pub struct EventMasks {
    pub button_motion: u32,
    pub button_press: u32,
    pub button_release: u32,
    pub scroll: u32,
    pub smooth_scroll: u32,
}

/// Reads the constants `GDK_BUTTON_MOTION_MASK`, `GDK_BUTTON_PRESS_MASK`,
/// `GDK_BUTTON_RELEASE_MASK`, `GDK_SCROLL_MASK` and `GDK_SMOOTH_SCROLL_MASK` of `gdk_sys`. The
/// contract gives the number that each of them is defined as.
#[verifier::external_body]
fn gdk_event_masks() -> (masks: EventMasks)
    ensures
        masks.button_motion == 16,
        masks.button_press == 256,
        masks.button_release == 512,
        masks.scroll == 2097152,
        masks.smooth_scroll == 8388608,
{
    EventMasks {
        button_motion: gdk_sys::GDK_BUTTON_MOTION_MASK,
        button_press: gdk_sys::GDK_BUTTON_PRESS_MASK,
        button_release: gdk_sys::GDK_BUTTON_RELEASE_MASK,
        scroll: gdk_sys::GDK_SCROLL_MASK,
        smooth_scroll: gdk_sys::GDK_SMOOTH_SCROLL_MASK,
    }
}

/// The events that the drawing area wants besides those that every widget gets: presses and
/// releases of the buttons, motion while one is down, and both kinds of scrolling.
pub fn drawing_area_events() -> (mask: i32)
    ensures
        mask == 512 + 256 + 16 + 2097152 + 8388608,
{
    let masks = gdk_event_masks();
    let mask: u32 = masks.button_release | masks.button_press | masks.button_motion | masks.scroll
        | masks.smooth_scroll;
    assert(512u32 | 256u32 | 16u32 | 2097152u32 | 8388608u32 == 10486544u32) by (bit_vector);
    mask as i32
}

/// The drawing area has got the focus.
pub fn gtk_focus_in<A>(state: &State<A>, connected: bool) -> (handled: Handled)
    requires
        state@.cursor,
    ensures
        handled.script@ == command_if(
            connected,
            "if exists('#FocusGained') | doautocmd FocusGained | endif"@,
        ) + seq![
            Action::Im(ImOp::FocusIn),
            Action::Cursor(CursorOp::EnterFocus),
            Action::Ask(Question::Redraw(Repaint::CursorPoint)),
        ],
        handled.inhibit == Inhibit(false),
{
    let mut script = Script::empty();
    if connected {
        script.push(
            Action::Nvim(
                NvimRequest::Command(
                    "if exists('#FocusGained') | doautocmd FocusGained | endif".to_owned(),
                ),
            ),
        );
    }
    script.push(Action::Im(ImOp::FocusIn));
    script.push(Action::Cursor(CursorOp::EnterFocus));
    script.append(state.queue_redraw_cursor());
    assert(script@ =~= command_if(
        connected,
        "if exists('#FocusGained') | doautocmd FocusGained | endif"@,
    ) + seq![
        Action::Im(ImOp::FocusIn),
        Action::Cursor(CursorOp::EnterFocus),
        Action::Ask(Question::Redraw(Repaint::CursorPoint)),
    ]);
    Handled { script, inhibit: Inhibit(false) }
}

/// The drawing area has lost the focus.
pub fn gtk_focus_out<A>(state: &State<A>, connected: bool) -> (handled: Handled)
    requires
        state@.cursor,
    ensures
        handled.script@ == command_if(
            connected,
            "if exists('#FocusLost') | doautocmd FocusLost | endif"@,
        ) + seq![
            Action::Im(ImOp::FocusOut),
            Action::Cursor(CursorOp::LeaveFocus),
            Action::Ask(Question::Redraw(Repaint::CursorPoint)),
        ],
        handled.inhibit == Inhibit(false),
{
    let mut script = Script::empty();
    if connected {
        script.push(
            Action::Nvim(
                NvimRequest::Command(
                    "if exists('#FocusLost') | doautocmd FocusLost | endif".to_owned(),
                ),
            ),
        );
    }
    script.push(Action::Im(ImOp::FocusOut));
    script.push(Action::Cursor(CursorOp::LeaveFocus));
    script.append(state.queue_redraw_cursor());
    assert(script@ =~= command_if(
        connected,
        "if exists('#FocusLost') | doautocmd FocusLost | endif"@,
    ) + seq![
        Action::Im(ImOp::FocusOut),
        Action::Cursor(CursorOp::LeaveFocus),
        Action::Ask(Question::Redraw(Repaint::CursorPoint)),
    ]);
    Handled { script, inhibit: Inhibit(false) }
}

/// Who deals with a key.
#[derive(Clone, Copy, Debug, PartialEq, Eq, Structural)]
pub enum KeyRoute {
    /// The input method has taken it.
    InputMethod,
    /// It goes to neovim, and the answer to the event is what the sending of keys returns.
    Nvim,
    /// Nobody.
    Nobody,
}

impl KeyRoute {
    /// The answer to the event, where no keys are sent.
    pub fn inhibit(self) -> (inhibit: Option<Inhibit>)
        ensures
            inhibit == match self {
                KeyRoute::InputMethod => Some(Inhibit(true)),
                KeyRoute::Nvim => None,
                KeyRoute::Nobody => Some(Inhibit(false)),
            },
    {
        match self {
            KeyRoute::InputMethod => Some(Inhibit(true)),
            KeyRoute::Nvim => None,
            KeyRoute::Nobody => Some(Inhibit(false)),
        }
    }
}

/// A key was pressed: the cursor blinks anew. After that the input method is asked, and
/// [`route_key`] goes on with its answer.
pub fn gtk_key_press<A>(state: &State<A>) -> (script: Script)
    requires
        state@.cursor,
    ensures
        script@ == seq![Action::<Seq<char>>::Cursor(CursorOp::ResetState)],
{
    Script::one(Action::Cursor(CursorOp::ResetState))
}

/// Decides who deals with a key: the input method first, then neovim.
pub fn route_key(filtered: bool, connected: bool) -> (route: KeyRoute)
    ensures
        filtered ==> route == KeyRoute::InputMethod,
        !filtered && connected ==> route == KeyRoute::Nvim,
        !filtered && !connected ==> route == KeyRoute::Nobody,
{
    if filtered {
        KeyRoute::InputMethod
    } else if connected {
        KeyRoute::Nvim
    } else {
        KeyRoute::Nobody
    }
}

/// A key was released. The input method hears of it first; whatever it says, the toolkit goes on.
pub fn gtk_key_release(filtered: bool) -> (inhibit: Inhibit)
    ensures
        inhibit == Inhibit(false),
{
    Inhibit(false)
}

/// The window has got another size or place. The drawing area has this size, in pixels.
pub fn gtk_configure_event<A>(state: &mut State<A>, width: i32, height: i32) -> (handled: Handled)
    ensures
        final(state)@ == old(state)@.resize_surface(width, height),
        handled.script@ == old(state)@.resize_surface_actions(width, height) + seq![
            Action::Ask(Question::GridSize),
        ],
        handled.inhibit == Inhibit(false),
{
    let mut script = state.resize_surface(width, height);
    script.push(Action::Ask(Question::GridSize));
    assert(script@ =~= old(state)@.resize_surface_actions(width, height) + seq![
        Action::Ask(Question::GridSize),
    ]);
    Handled { script, inhibit: Inhibit(false) }
}

/// Files were dropped on the drawing area. `names` has, for each URI, the escaped file name, or
/// nothing where the URI names no file.
pub fn gtk_drag_data_received(names: &Vec<Option<String>>) -> (script: Script)
    ensures
        script@ == seq![
            Action::Nvim(NvimRequest::Command(argument_command(optional_texts(names@)))),
        ],
{
    Script::one(Action::Nvim(NvimRequest::Command(argument_text(names))))
}

/// Where the notice that neovim is being started appears. The numbers count half pixels.
#[derive(Clone, Copy, Debug, PartialEq, Eq, Structural)]
pub struct LoadingLayout {
    /// The left edge of the text.
    pub x: i64,
    /// The upper edge of the text and of the cursor.
    pub y: i64,
    /// The left edge of the cursor.
    pub cursor_x: i64,
}

/// The layout of a text in the middle of the drawing area, with the cursor behind it. All sizes
/// are in pixels.
pub fn draw_initializing(area_width: i32, area_height: i32, width: i32, height: i32) -> (layout:
    LoadingLayout)
    ensures
        layout.x == area_width - width,
        layout.y == area_height - height,
        layout.cursor_x == layout.x + 2 * width,
        2 * area_width - layout.cursor_x == layout.x,
{
    let x: i64 = area_width as i64 - width as i64;
    LoadingLayout {
        x,
        y: area_height as i64 - height as i64,
        cursor_x: x + 2 * (width as i64),
    }
}

} // verus!
