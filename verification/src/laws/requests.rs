//! What goes to neovim and to the parts of the window.
use crate::action::{
    Action, CmdLineOp, CursorOp, DrawOp, ModelOp, NvimRequest, RepaintMode,
};
use crate::machine::{callback_if, command_if, paint, NvimMode, StateView};
use crate::state::redraw::{
    busy_actions, cmdline_block_hide_actions, cmdline_hide_actions, collected, ModeInfoUpdate,
};
use vstd::prelude::*;

verus! {

/// A command goes to neovim as it is, once, if neovim can be reached, and nowhere otherwise.
pub proof fn law_commands_go_out_as_they_are(connected: bool, command: Seq<char>)
    ensures
        !connected ==> command_if(connected, command).len() == 0,
        connected ==> {
            let sent = command_if(connected, command);
            &&& sent.len() == 1
            &&& sent[0] matches Action::Nvim(NvimRequest::Command(text))
            &&& text == command
        },
{
}

/// A callback is called once if it is registered, under its own number.
pub proof fn law_registered_callbacks_are_called(callback: Option<u64>, id: u64)
    ensures
        callback is None ==> callback_if(callback).len() == 0,
        callback is Some ==> callback_if(callback).len() == 1,
        callback == Some(id) ==> callback_if(callback)[0] == Action::<Seq<char>>::Callback(id),
{
}

/// An open menu is closed by one escape key, and a closed one is left alone.
pub proof fn law_escape_closes_the_menu<A>(s: StateView<A>, popup_open: bool, connected: bool)
    ensures
        ({
            let sent = s.close_popup_actions(popup_open, connected);
            &&& !(popup_open && connected) ==> sent.len() == 0
            &&& popup_open && connected ==> {
                &&& sent.len() == 1
                &&& sent[0] matches Action::Nvim(NvimRequest::Input { keys, failure })
                &&& keys == "<Esc>"@
                &&& failure is Report
            }
        }),
{
}

/// Pasting names the register. In normal and insert mode a command puts it before the cursor, in
/// any other mode it is typed; without neovim nothing is pasted.
pub proof fn law_paste_names_the_register<A>(
    s: StateView<A>,
    register: Seq<char>,
    mode: NvimMode,
    connected: bool,
)
    ensures
        ({
            let sent = s.edit_paste_actions(register, mode, connected);
            &&& !connected ==> sent.len() == 0
            &&& connected && (mode is Normal || mode is Insert) ==> {
                &&& sent.len() == 1
                &&& sent[0] matches Action::Nvim(NvimRequest::Command(text))
                &&& text.len() == register.len() + 10
                &&& text.subrange(0, 9) == "normal! \""@
                &&& text.subrange(9, text.len() - 1) == register
                &&& text.last() == 'P'
            }
            &&& connected && mode is Other ==> {
                &&& sent.len() == 1
                &&& sent[0] matches Action::Nvim(NvimRequest::InputAsync(keys))
                &&& keys.len() == register.len() + 5
                &&& keys.subrange(0, 5) == "<C-r>"@
                &&& keys.subrange(5, keys.len() as int) == register
            }
        }),
{
    reveal_strlit("normal! \"");
    reveal_strlit("P");
    reveal_strlit("<C-r>");
    let command = "normal! \""@ + register + "P"@;
    let keys = "<C-r>"@ + register;
    assert(command.subrange(0, 9) =~= "normal! \""@);
    assert(command.subrange(9, command.len() - 1) =~= register);
    assert(keys.subrange(0, 5) =~= "<C-r>"@);
    assert(keys.subrange(5, keys.len() as int) =~= register);
}

/// The cursor is made busy, or not busy, by one call and no other; hiding a level of the command
/// line hides that level and then ends the busy state, and so it is with a block.
pub proof fn law_hiding_hides(busy: bool, level: u64)
    ensures
        busy_actions(busy).len() == 1,
        busy_actions(busy)[0] == Action::<Seq<char>>::Cursor(
            if busy {
                CursorOp::BusyOn
            } else {
                CursorOp::BusyOff
            },
        ),
        cmdline_hide_actions(level).len() == 2,
        cmdline_hide_actions(level)[0] matches Action::CmdLine(CmdLineOp::HideLevel(hidden))
            && hidden == level,
        cmdline_hide_actions(level)[1] == Action::<Seq<char>>::Cursor(CursorOp::BusyOff),
        cmdline_block_hide_actions().len() == 2,
        cmdline_block_hide_actions()[0] == Action::<Seq<char>>::CmdLine(CmdLineOp::BlockHide),
        cmdline_block_hide_actions()[1] == Action::<Seq<char>>::Cursor(CursorOp::BusyOff),
{
}

/// Entries that all could be read become the list, in their order and with the switch as given.
/// One that could not be read makes the whole list fail, with the error of the first such entry.
pub proof fn law_mode_infos_are_all_or_nothing<I, E>(
    entries: Seq<Result<I, E>>,
    enabled: bool,
    update: ModeInfoUpdate<I, E>,
    at: int,
)
    requires
        collected(entries, enabled, update),
        0 <= at < entries.len(),
    ensures
        entries[at] is Err ==> update is Failed,
        entries[at] is Err && (forall|j: int| 0 <= j < at ==> (#[trigger] entries[j]) is Ok)
            ==> entries[at] == Err::<I, E>(update->Failed_0),
        update matches ModeInfoUpdate::Loaded { cursor_style_enabled, mode_infos } ==> {
            &&& cursor_style_enabled == enabled
            &&& mode_infos@.len() == entries.len()
            &&& entries[at] == Ok::<I, E>(mode_infos@[at])
        },
        update is Failed ==> exists|i: int|
            0 <= i < entries.len() && (#[trigger] entries[i]) is Err,
{
    if let ModeInfoUpdate::Loaded { mode_infos, .. } = update {
        let ok = mode_infos@.map_values(|info: I| Ok::<I, E>(info));
        assert(entries[at] == ok[at]);
    }
}

/// An empty list of cursor shapes is taken over as it is.
pub proof fn law_no_mode_infos<I, E>(enabled: bool, update: ModeInfoUpdate<I, E>)
    requires
        collected(Seq::empty(), enabled, update),
    ensures
        update matches ModeInfoUpdate::Loaded { cursor_style_enabled, mode_infos }
            && cursor_style_enabled == enabled && mode_infos@.len() == 0,
{
    if let ModeInfoUpdate::Loaded { mode_infos, .. } = update {
        let ok = mode_infos@.map_values(|info: I| Ok::<I, E>(info));
        assert(ok.len() == mode_infos@.len());
    }
}

/// How many rectangles a repaint counts.
pub open spec fn rect_count(mode: RepaintMode) -> nat {
    match mode {
        RepaintMode::Area(_) => 1,
        RepaintMode::AreaList(list) => list@.len(),
        _ => 0,
    }
}

/// A repaint shapes the text that changed, once, whatever is painted; painting everything is one
/// call after that, and painting nothing is no call at all. The rectangles counted are those of the
/// repaint, in their order.
pub proof fn law_repaint_shapes_once(mode: RepaintMode)
    ensures
        mode is Nothing ==> paint(mode).len() == 0,
        mode is All ==> paint(mode).len() == 2,
        mode is All ==> paint(mode)[0] == Action::<Seq<char>>::Model(ModelOp::ShapeDirty),
        mode is All ==> paint(mode)[1] == Action::<Seq<char>>::Draw(DrawOp::QueueAll),
        mode is Area || mode is AreaList ==> {
            let count = rect_count(mode) as int;
            &&& paint(mode).len() == 3 * count + 1
            &&& paint(mode)[count] == Action::<Seq<char>>::Model(ModelOp::ShapeDirty)
        },
        mode.areas().len() == rect_count(mode),
        mode matches RepaintMode::Area(rect) ==> mode.areas()[0] == rect,
        mode matches RepaintMode::AreaList(list) ==> forall|i: int|
            0 <= i < list@.len() ==> mode.areas()[i] == #[trigger] list@[i],
{
}

/// Each rectangle of a repaint is extended before the text is shaped, and again after that right
/// before it is painted.
pub proof fn law_repaint_covers_each_rect(mode: RepaintMode, rect: usize)
    requires
        rect < rect_count(mode),
    ensures
        ({
            let shaped = rect_count(mode) as int;
            let extended = shaped + 1 + 2 * rect;
            &&& paint(mode)[rect as int] == Action::<Seq<char>>::Draw(DrawOp::ExtendRect(rect))
            &&& paint(mode)[extended] == Action::<Seq<char>>::Draw(DrawOp::ExtendRect(rect))
            &&& paint(mode)[extended + 1] == Action::<Seq<char>>::Draw(DrawOp::QueueRect(rect))
        }),
{
}

} // verus!
