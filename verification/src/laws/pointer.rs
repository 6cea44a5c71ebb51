//! What the buttons and the wheel send.
use crate::action::{Action, Failure, MouseKey, NvimRequest};
use crate::laws::{law_smooth_scroll_makes_up_the_steps, net};
use crate::machine::{Actions, StateView};
use crate::mouse::{wheel, ScrollDirection};
use vstd::prelude::*;

verus! {

/// How many mouse keys are sent in all.
pub open spec fn keys_sent(actions: Actions) -> int
    decreases actions.len(),
{
    if actions.len() == 0 {
        0
    } else {
        keys_sent(actions.drop_last()) + match actions.last() {
            Action::Mouse { times, .. } => times as int,
            _ => 0,
        }
    }
}

/// How often one mouse key is sent.
pub open spec fn key_sent(actions: Actions, wanted: MouseKey) -> int
    decreases actions.len(),
{
    if actions.len() == 0 {
        0
    } else {
        key_sent(actions.drop_last(), wanted) + match actions.last() {
            Action::Mouse { key, times } => if key == wanted {
                times as int
            } else {
                0
            },
            _ => 0,
        }
    }
}

proof fn lemma_counts_add_up(a: Actions, b: Actions, forward: MouseKey, backward: MouseKey)
    ensures
        net(a + b, forward, backward) == net(a, forward, backward) + net(b, forward, backward),
        keys_sent(a + b) == keys_sent(a) + keys_sent(b),
        key_sent(a + b, forward) == key_sent(a, forward) + key_sent(b, forward),
    decreases b.len(),
{
    if b.len() == 0 {
        assert(a + b =~= a);
    } else {
        lemma_counts_add_up(a, b.drop_last(), forward, backward);
        assert((a + b).drop_last() =~= a + b.drop_last());
        assert((a + b).last() == b.last());
    }
}

proof fn lemma_closing_sends_no_mouse_key<A>(s: StateView<A>, popup_open: bool, connected: bool)
    ensures
        ({
            let closing = s.close_popup_actions(popup_open, connected);
            &&& keys_sent(closing) == 0
            &&& forall|forward: MouseKey, backward: MouseKey|
                #[trigger] net(closing, forward, backward) == 0
            &&& forall|key: MouseKey| #[trigger] key_sent(closing, key) == 0
        }),
{
    reveal_with_fuel(net, 2);
    reveal_with_fuel(keys_sent, 2);
    reveal_with_fuel(key_sent, 2);
    let closing = s.close_popup_actions(popup_open, connected);
    if closing.len() == 1 {
        assert(closing.drop_last() =~= Actions::empty());
    }
}

/// What a turn of the wheel sends while neovim wants to hear of the mouse: the steps of smooth
/// scrolling to the right and down where above zero, to the left and up where below. No key is sent
/// that another one takes back.
pub proof fn law_smooth_scroll_event_sends_the_steps<A>(
    s: StateView<A>,
    x: isize,
    y: isize,
    popup_open: bool,
    connected: bool,
)
    requires
        s.mouse_enabled,
        x > isize::MIN,
        y > isize::MIN,
    ensures
        ({
            let sent = s.scroll_actions(ScrollDirection::Smooth { x, y }, popup_open, connected);
            let right = key_sent(sent, MouseKey::ScrollWheelRight);
            let left = key_sent(sent, MouseKey::ScrollWheelLeft);
            let down = key_sent(sent, MouseKey::ScrollWheelDown);
            let up = key_sent(sent, MouseKey::ScrollWheelUp);
            &&& right - left == x
            &&& down - up == y
            &&& right == 0 || left == 0
            &&& down == 0 || up == 0
            &&& keys_sent(sent) == right + left + down + up
            &&& net(sent, MouseKey::ScrollWheelRight, MouseKey::ScrollWheelLeft) == x
            &&& net(sent, MouseKey::ScrollWheelDown, MouseKey::ScrollWheelUp) == y
        }),
{
    let direction = ScrollDirection::Smooth { x, y };
    let closing = s.close_popup_actions(popup_open, connected);
    let keys = wheel(direction);
    assert(s.scroll_actions(direction, popup_open, connected) =~= closing + keys);
    lemma_closing_sends_no_mouse_key(s, popup_open, connected);
    law_smooth_scroll_makes_up_the_steps(x, y);
    lemma_counts_add_up(closing, keys, MouseKey::ScrollWheelRight, MouseKey::ScrollWheelLeft);
    lemma_counts_add_up(closing, keys, MouseKey::ScrollWheelLeft, MouseKey::ScrollWheelRight);
    lemma_counts_add_up(closing, keys, MouseKey::ScrollWheelDown, MouseKey::ScrollWheelUp);
    lemma_counts_add_up(closing, keys, MouseKey::ScrollWheelUp, MouseKey::ScrollWheelDown);
    reveal_with_fuel(keys_sent, 3);
    reveal_with_fuel(key_sent, 3);
    if keys.len() == 2 {
        assert(keys.drop_last().drop_last() =~= Actions::empty());
    } else if keys.len() == 1 {
        assert(keys.drop_last() =~= Actions::empty());
    }
}

/// Small movements add up exactly while neovim wants to hear of the mouse.
pub proof fn law_movements_add_up_with_the_mouse<A>(s: StateView<A>)
    ensures
        s.adds_up_scrolling() <==> s.mouse_enabled,
{
}

/// Smooth scrolling goes sideways first, then up or down.
pub proof fn law_sideways_comes_first<A>(
    s: StateView<A>,
    x: isize,
    y: isize,
    popup_open: bool,
    connected: bool,
    i: int,
    j: int,
)
    requires
        0 <= i < j < s.scroll_actions(
            ScrollDirection::Smooth { x, y },
            popup_open,
            connected,
        ).len(),
    ensures
        ({
            let sent = s.scroll_actions(ScrollDirection::Smooth { x, y }, popup_open, connected);
            sent[i] matches Action::Mouse { key, .. } ==> {
                &&& key == MouseKey::ScrollWheelRight || key == MouseKey::ScrollWheelLeft
                &&& sent[j] matches Action::Mouse { key: later, .. }
                &&& later == MouseKey::ScrollWheelDown || later == MouseKey::ScrollWheelUp
            }
        }),
{
}

/// A wheel that turns by whole steps sends the key of its direction, once; a turn without a
/// direction sends none.
pub proof fn law_wheel_sends_its_direction<A>(
    s: StateView<A>,
    direction: ScrollDirection,
    popup_open: bool,
    connected: bool,
)
    requires
        s.mouse_enabled,
        direction !is Smooth,
    ensures
        ({
            let sent = s.scroll_actions(direction, popup_open, connected);
            let once = |key: MouseKey| Action::<Seq<char>>::Mouse { key, times: 1 };
            let closing: int = if popup_open && connected {
                1
            } else {
                0
            };
            &&& sent.len() == closing + (if direction is Unknown {
                0int
            } else {
                1
            })
            &&& direction is Up ==> sent.last() == once(MouseKey::ScrollWheelUp)
            &&& direction is Down ==> sent.last() == once(MouseKey::ScrollWheelDown)
            &&& direction is Left ==> sent.last() == once(MouseKey::ScrollWheelLeft)
            &&& direction is Right ==> sent.last() == once(MouseKey::ScrollWheelRight)
        }),
{
}

/// Scrolling closes an open menu before any key of the wheel, and sends nothing but that and the
/// keys.
pub proof fn law_menu_is_closed_before_scrolling<A>(
    s: StateView<A>,
    direction: ScrollDirection,
    popup_open: bool,
    connected: bool,
    i: int,
)
    requires
        s.mouse_enabled,
    ensures
        ({
            let sent = s.scroll_actions(direction, popup_open, connected);
            let closes = popup_open && connected;
            &&& closes ==> sent.len() > 0 && sent[0] == Action::Nvim(
                NvimRequest::Input { keys: "<Esc>"@, failure: Failure::Report },
            )
            &&& 0 <= i < sent.len() && (closes ==> i > 0) ==> sent[i] is Mouse
        }),
{
}

/// The first three buttons send a key each, when they go down and when they go up; other buttons
/// send none, nor do the later clicks of a series.
pub proof fn law_buttons_send_their_keys<A>(s: StateView<A>, button: u32)
    requires
        s.mouse_enabled,
    ensures
        ({
            let down = s.press_actions(true, button);
            let up = s.release_actions(button);
            let once = |key: MouseKey| Action::<Seq<char>>::Mouse { key, times: 1 };
            &&& 1 <= button <= 3 ==> down.len() == 1 && up.len() == 1
            &&& !(1 <= button <= 3) ==> down.len() == 0 && up.len() == 0
            &&& button == 1 ==> down[0] == once(MouseKey::LeftMouse) && up[0] == once(
                MouseKey::LeftRelease,
            )
            &&& button == 2 ==> down[0] == once(MouseKey::MiddleMouse) && up[0] == once(
                MouseKey::MiddleRelease,
            )
            &&& button == 3 ==> down[0] == once(MouseKey::RightMouse) && up[0] == once(
                MouseKey::RightRelease,
            )
            &&& s.press_actions(false, button).len() == 0
        }),
{
}

/// The name of a key begins with what was moved and ends with what was done to it.
pub proof fn law_key_names_are_made_of_two_words()
    ensures
        MouseKey::LeftMouse.name() == "Left"@ + "Mouse"@,
        MouseKey::MiddleMouse.name() == "Middle"@ + "Mouse"@,
        MouseKey::RightMouse.name() == "Right"@ + "Mouse"@,
        MouseKey::LeftRelease.name() == "Left"@ + "Release"@,
        MouseKey::MiddleRelease.name() == "Middle"@ + "Release"@,
        MouseKey::RightRelease.name() == "Right"@ + "Release"@,
        MouseKey::LeftDrag.name() == "Left"@ + "Drag"@,
        MouseKey::ScrollWheelRight.name() == "ScrollWheel"@ + "Right"@,
        MouseKey::ScrollWheelLeft.name() == "ScrollWheel"@ + "Left"@,
        MouseKey::ScrollWheelUp.name() == "ScrollWheel"@ + "Up"@,
        MouseKey::ScrollWheelDown.name() == "ScrollWheel"@ + "Down"@,
{
    reveal_strlit("Left");
    reveal_strlit("Middle");
    reveal_strlit("Right");
    reveal_strlit("Up");
    reveal_strlit("Down");
    reveal_strlit("Mouse");
    reveal_strlit("Release");
    reveal_strlit("Drag");
    reveal_strlit("ScrollWheel");
    reveal_strlit("LeftMouse");
    reveal_strlit("MiddleMouse");
    reveal_strlit("RightMouse");
    reveal_strlit("LeftRelease");
    reveal_strlit("MiddleRelease");
    reveal_strlit("RightRelease");
    reveal_strlit("LeftDrag");
    reveal_strlit("ScrollWheelRight");
    reveal_strlit("ScrollWheelLeft");
    reveal_strlit("ScrollWheelUp");
    reveal_strlit("ScrollWheelDown");
}

} // verus!
