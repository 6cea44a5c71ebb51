//! Mouse buttons and wheels.
use crate::action::{Action, MouseKey, Script};
use crate::machine::{Actions, StateView};
use crate::state::State;
use vstd::prelude::*;

verus! {

/// Whether the toolkit shall do nothing more about an event.
#[derive(Clone, Copy, Debug, PartialEq, Eq, Structural)]
pub struct Inhibit(pub bool);

/// The answer to an event of the toolkit.
#[derive(Debug, PartialEq, Eq)]
pub struct Handled {
    pub script: Script,
    pub inhibit: Inhibit,
}

/// What the drawing area remembers of the mouse.
#[derive(Clone, Copy, Debug, PartialEq, Eq, Structural)]
pub struct UiState {
    /// Whether a button is held down.
    pub mouse_pressed: bool,
}

impl UiState {
    pub fn new() -> (ui_state: UiState)
        ensures
            ui_state == (UiState { mouse_pressed: false }),
    {
        UiState { mouse_pressed: false }
    }
}

impl MouseKey {
    /// The name that neovim knows the key by.
    pub open spec fn name(self) -> Seq<char> {
        match self {
            MouseKey::LeftMouse => "LeftMouse"@,
            MouseKey::MiddleMouse => "MiddleMouse"@,
            MouseKey::RightMouse => "RightMouse"@,
            MouseKey::LeftRelease => "LeftRelease"@,
            MouseKey::MiddleRelease => "MiddleRelease"@,
            MouseKey::RightRelease => "RightRelease"@,
            MouseKey::LeftDrag => "LeftDrag"@,
            MouseKey::ScrollWheelRight => "ScrollWheelRight"@,
            MouseKey::ScrollWheelLeft => "ScrollWheelLeft"@,
            MouseKey::ScrollWheelUp => "ScrollWheelUp"@,
            MouseKey::ScrollWheelDown => "ScrollWheelDown"@,
        }
    }

    /// The name that neovim knows the key by.
    pub fn as_str(self) -> (name: &'static str)
        ensures
            name@ == self.name(),
    {
        match self {
            MouseKey::LeftMouse => "LeftMouse",
            MouseKey::MiddleMouse => "MiddleMouse",
            MouseKey::RightMouse => "RightMouse",
            MouseKey::LeftRelease => "LeftRelease",
            MouseKey::MiddleRelease => "MiddleRelease",
            MouseKey::RightRelease => "RightRelease",
            MouseKey::LeftDrag => "LeftDrag",
            MouseKey::ScrollWheelRight => "ScrollWheelRight",
            MouseKey::ScrollWheelLeft => "ScrollWheelLeft",
            MouseKey::ScrollWheelUp => "ScrollWheelUp",
            MouseKey::ScrollWheelDown => "ScrollWheelDown",
        }
    }
}

/// Which way the wheel was turned.
#[derive(Clone, Copy, Debug, PartialEq, Eq, Structural)]
pub enum ScrollDirection {
    Up,
    Down,
    Left,
    Right,
    /// The whole steps that small movements have added up to: to the right and down where above
    /// zero, to the left and up where below.
    Smooth { x: isize, y: isize },
    Unknown,
}

/// A mouse key, once.
pub open spec fn once(key: MouseKey) -> Actions {
    seq![Action::Mouse { key, times: 1 }]
}

/// Steps of a wheel: `forward` so many times where the number is above zero, `backward` where it
/// is below.
pub open spec fn steps(number: int, forward: MouseKey, backward: MouseKey) -> Actions {
    if number > 0 {
        seq![Action::Mouse { key: forward, times: number as usize }]
    } else if number < 0 {
        seq![Action::Mouse { key: backward, times: (-number) as usize }]
    } else {
        seq![]
    }
}

/// The mouse keys that a turn of the wheel stands for.
pub open spec fn wheel(direction: ScrollDirection) -> Actions {
    match direction {
        ScrollDirection::Right => once(MouseKey::ScrollWheelRight),
        ScrollDirection::Left => once(MouseKey::ScrollWheelLeft),
        ScrollDirection::Up => once(MouseKey::ScrollWheelUp),
        ScrollDirection::Down => once(MouseKey::ScrollWheelDown),
        ScrollDirection::Smooth { x, y } => steps(
            x as int,
            MouseKey::ScrollWheelRight,
            MouseKey::ScrollWheelLeft,
        ) + steps(y as int, MouseKey::ScrollWheelDown, MouseKey::ScrollWheelUp),
        ScrollDirection::Unknown => seq![],
    }
}

/// The mouse key for a button that goes down.
pub open spec fn pressed_key(button: u32) -> Actions {
    if button == 1 {
        once(MouseKey::LeftMouse)
    } else if button == 2 {
        once(MouseKey::MiddleMouse)
    } else if button == 3 {
        once(MouseKey::RightMouse)
    } else {
        seq![]
    }
}

/// The mouse key for a button that goes up.
pub open spec fn released_key(button: u32) -> Actions {
    if button == 1 {
        once(MouseKey::LeftRelease)
    } else if button == 2 {
        once(MouseKey::MiddleRelease)
    } else if button == 3 {
        once(MouseKey::RightRelease)
    } else {
        seq![]
    }
}

impl<A> StateView<A> {
    pub open spec fn scroll_actions(
        self,
        direction: ScrollDirection,
        popup_open: bool,
        connected: bool,
    ) -> Actions {
        if self.mouse_enabled {
            self.close_popup_actions(popup_open, connected) + wheel(direction)
        } else {
            seq![]
        }
    }

    /// Whether small movements of the wheel add up to steps.
    pub open spec fn adds_up_scrolling(self) -> bool {
        self.mouse_enabled
    }

    pub open spec fn press_actions(self, is_press: bool, button: u32) -> Actions {
        if is_press && self.mouse_enabled {
            pressed_key(button)
        } else {
            seq![]
        }
    }

    pub open spec fn pressed_after_press(self, is_press: bool, pressed: bool) -> bool {
        pressed || (is_press && self.mouse_enabled)
    }

    pub open spec fn release_actions(self, button: u32) -> Actions {
        if self.mouse_enabled {
            released_key(button)
        } else {
            seq![]
        }
    }

    pub open spec fn motion_actions(self, pressed: bool) -> Actions {
        if self.mouse_enabled && pressed {
            once(MouseKey::LeftDrag)
        } else {
            seq![]
        }
    }
}

fn mouse_key(key: MouseKey) -> (script: Script)
    ensures
        script@ == once(key),
{
    Script::one(Action::Mouse { key, times: 1 })
}

fn wheel_steps(number: isize, forward: MouseKey, backward: MouseKey) -> (script: Script)
    requires
        number > isize::MIN,
    ensures
        script@ == steps(number as int, forward, backward),
{
    if number > 0 {
        Script::one(Action::Mouse { key: forward, times: number as usize })
    } else if number < 0 {
        let back: isize = -number;
        Script::one(Action::Mouse { key: backward, times: back as usize })
    } else {
        Script::empty()
    }
}

/// Whether the small movements of smooth scrolling are to be added up. Those that come while neovim
/// does not want to hear of the mouse are forgotten.
pub fn adds_up_scrolling<A>(state: &State<A>) -> (adds_up: bool)
    ensures
        adds_up == state@.adds_up_scrolling(),
{
    state.mouse_enabled()
}

/// The wheel was turned.
pub fn gtk_scroll_event<A>(
    state: &State<A>,
    direction: ScrollDirection,
    popup_open: bool,
    connected: bool,
) -> (handled: Handled)
    requires
        direction matches ScrollDirection::Smooth { x, y } ==> x > isize::MIN && y > isize::MIN,
    ensures
        handled.script@ == state@.scroll_actions(direction, popup_open, connected),
        handled.inhibit == Inhibit(false),
{
    if !state.mouse_enabled() {
        return Handled { script: Script::empty(), inhibit: Inhibit(false) };
    }
    let mut script = state.close_popup_menu(popup_open, connected);
    match direction {
        ScrollDirection::Right => script.append(mouse_key(MouseKey::ScrollWheelRight)),
        ScrollDirection::Left => script.append(mouse_key(MouseKey::ScrollWheelLeft)),
        ScrollDirection::Up => script.append(mouse_key(MouseKey::ScrollWheelUp)),
        ScrollDirection::Down => script.append(mouse_key(MouseKey::ScrollWheelDown)),
        ScrollDirection::Smooth { x, y } => {
            script.append(wheel_steps(x, MouseKey::ScrollWheelRight, MouseKey::ScrollWheelLeft));
            script.append(wheel_steps(y, MouseKey::ScrollWheelDown, MouseKey::ScrollWheelUp));
        },
        ScrollDirection::Unknown => {},
    }
    assert(script@ =~= state@.scroll_actions(direction, popup_open, connected));
    Handled { script, inhibit: Inhibit(false) }
}

/// A button event. `is_press` says whether it is a plain press, not the second or third click of
/// a series.
pub fn gtk_button_press<A>(
    state: &State<A>,
    ui_state: &mut UiState,
    is_press: bool,
    button: u32,
) -> (handled: Handled)
    ensures
        final(ui_state).mouse_pressed == state@.pressed_after_press(
            is_press,
            old(ui_state).mouse_pressed,
        ),
        handled.script@ == state@.press_actions(is_press, button),
        handled.inhibit == Inhibit(false),
{
    let mut script = Script::empty();
    if is_press && state.mouse_enabled() {
        ui_state.mouse_pressed = true;
        script = match button {
            1 => mouse_key(MouseKey::LeftMouse),
            2 => mouse_key(MouseKey::MiddleMouse),
            3 => mouse_key(MouseKey::RightMouse),
            _ => Script::empty(),
        };
    }
    Handled { script, inhibit: Inhibit(false) }
}

/// A button was released.
pub fn gtk_button_release<A>(state: &State<A>, ui_state: &mut UiState, button: u32) -> (handled:
    Handled)
    ensures
        !final(ui_state).mouse_pressed,
        handled.script@ == state@.release_actions(button),
        handled.inhibit == Inhibit(false),
{
    ui_state.mouse_pressed = false;
    let mut script = Script::empty();
    if state.mouse_enabled() {
        script = match button {
            1 => mouse_key(MouseKey::LeftRelease),
            2 => mouse_key(MouseKey::MiddleRelease),
            3 => mouse_key(MouseKey::RightRelease),
            _ => Script::empty(),
        };
    }
    Handled { script, inhibit: Inhibit(false) }
}

/// The pointer has moved.
pub fn gtk_motion_notify<A>(state: &State<A>, ui_state: &UiState) -> (handled: Handled)
    ensures
        handled.script@ == state@.motion_actions(ui_state.mouse_pressed),
        handled.inhibit == Inhibit(false),
{
    let script = if state.mouse_enabled() && ui_state.mouse_pressed {
        mouse_key(MouseKey::LeftDrag)
    } else {
        Script::empty()
    };
    Handled { script, inhibit: Inhibit(false) }
}

} // verus!
