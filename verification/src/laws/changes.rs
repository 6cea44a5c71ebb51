//! What events change, and what they leave alone.
use crate::action::{Action, DrawOp, ModelOp, Question};
use crate::grid::UiModel;
use crate::laws::Event;
use crate::machine::{font_actions, NvimStatus, Picture, StateView};
use crate::options::ShellOptionsView;
use crate::render_state::ColorChoice;
use vstd::prelude::*;

verus! {

/// A fresh shell has no grid, no attributes, no cursor, no back buffer, no request and no callback.
/// It wants to hear of the mouse, and neovim was not started.
pub proof fn law_fresh_state<A>(options: ShellOptionsView, double_buffer: bool)
    ensures
        ({
            let s = StateView::<A>::initial(options, double_buffer);
            &&& s.model == UiModel { rows: 0, columns: 0 }
            &&& s.cur_attrs is None
            &&& s.mouse_enabled
            &&& s.nvim is Uninitialized
            &&& !s.cursor
            &&& s.render_state.font_desc == "DejaVu Sans Mono 12"@
            &&& s.render_state.color_model.bg_color is Initial
            &&& s.render_state.color_model.fg_color is Initial
            &&& s.render_state.color_model.sp_color is Initial
            &&& s.surface is None
            &&& s.enable_double_buffer == double_buffer
            &&& s.resize_request.0 == -1
            &&& s.resize_request.1 == -1
            &&& s.resize_timer is None
            &&& s.options == options
            &&& s.detach_cb is None
            &&& s.nvim_started_cb is None
            &&& s.command_cb is None
        }),
{
}

/// Each part of the state changes by the events that are about it, and by no other.
pub proof fn law_events_leave_the_rest_alone<A>(s: StateView<A>, event: Event<A>)
    ensures
        ({
            let next = s.step(event);
            let colors = s.render_state.color_model;
            let next_colors = next.render_state.color_model;
            &&& next.model != s.model ==> event is OnResize || event is InitNvim
            &&& next.cur_attrs != s.cur_attrs ==> event is OnHighlightSet
            &&& next.mouse_enabled != s.mouse_enabled ==> event is OnMouse
            &&& next.nvim != s.nvim ==> event is StartNvimInitialization || event is InitNvim
                || event is NvimFailed || event is NvimInitialized || event is SessionEnded
            &&& next.cursor != s.cursor ==> event is AttachCursor
            &&& next.render_state.font_desc != s.render_state.font_desc ==> event is SetFontDesc
            &&& next_colors.bg_color != colors.bg_color ==> event is OnUpdateBg
            &&& next_colors.fg_color != colors.fg_color ==> event is OnUpdateFg
            &&& next_colors.sp_color != colors.sp_color ==> event is OnUpdateSp
            &&& next.surface != s.surface ==> event is ResizeSurface
            &&& next.enable_double_buffer == s.enable_double_buffer
            &&& next.resize_request != s.resize_request ==> event is TryNvimResize
                || event is NvimInitialized
            &&& next.resize_timer != s.resize_timer ==> event is TryNvimResize
                || event is ResizeTimerFired
            &&& next.options == s.options
            &&& next.detach_cb != s.detach_cb ==> event is SetDetachCb
            &&& next.nvim_started_cb != s.nvim_started_cb ==> event is SetNvimStartedCb
            &&& next.command_cb != s.command_cb ==> event is SetNvimCommandCb
        }),
{
}

/// A cursor that was attached is there, whatever happens.
pub proof fn law_cursor_stays<A>(s: StateView<A>, events: Seq<Event<A>>)
    ensures
        s.attach_cursor().cursor,
        s.attach_cursor().run(events).cursor,
    decreases events.len(),
{
    if events.len() > 0 {
        law_cursor_stays(s, events.drop_last());
    }
}

/// The start of neovim: it begins once, with or without a new grid, and ends in a failure or in a
/// running neovim. The end of the session makes another start possible.
pub proof fn law_course_of_a_start<A>(s: StateView<A>, columns: usize, rows: usize)
    ensures
        s.nvim is Uninitialized ==> s.start_nvim_initialization().nvim is InProgress,
        s.nvim is Uninitialized ==> s.init_nvim(columns, rows).nvim is InProgress,
        s.nvim !is Uninitialized ==> s.start_nvim_initialization() == s,
        s.nvim !is Uninitialized ==> s.init_nvim(columns, rows) == s,
        s.nvim_failed().nvim is Error,
        s.set_nvim_initialized().nvim is Initialized,
        s.session_ended().nvim is Uninitialized,
        s.session_ended().init_nvim(columns, rows).nvim is InProgress,
{
}

/// When neovim has started, a request whose timer runs stays, and one whose timer does not run is
/// forgotten.
pub proof fn law_start_forgets_requests_that_do_not_wait<A>(s: StateView<A>)
    ensures
        s.resize_timer is Some ==> s.set_nvim_initialized().resize_request == s.resize_request,
        s.resize_timer is None ==> s.set_nvim_initialized().resize_request.0 == -1
            && s.set_nvim_initialized().resize_request.1 == -1,
{
}

/// The grid is drawn exactly while neovim runs, through the back buffer exactly with double
/// buffering, and the notice is drawn exactly while neovim is being started.
pub proof fn law_picture_tells_the_state<A>(s: StateView<A>)
    ensures
        s.picture() == Picture::DoubleBuffer <==> s.nvim == NvimStatus::Initialized
            && s.enable_double_buffer,
        s.picture() == Picture::Direct <==> s.nvim == NvimStatus::Initialized
            && !s.enable_double_buffer,
        s.picture() == Picture::Initializing <==> s.nvim == NvimStatus::InProgress,
        s.picture() == Picture::Nothing <==> s.nvim == NvimStatus::Uninitialized || s.nvim
            == NvimStatus::Error,
{
}

/// A colour number from zero on is taken as it is. A number below zero stands for black as the
/// background, for white as the text, and for red as the underline.
pub proof fn law_colours_are_taken_over<A>(s: StateView<A>, number: i64)
    ensures
        ({
            let bg = s.on_update_bg(number).render_state.color_model.bg_color;
            let fg = s.on_update_fg(number).render_state.color_model.fg_color;
            let sp = s.on_update_sp(number).render_state.color_model.sp_color;
            &&& number >= 0 ==> {
                &&& bg matches ColorChoice::Indexed(n) && n == number
                &&& fg matches ColorChoice::Indexed(n) && n == number
                &&& sp matches ColorChoice::Indexed(n) && n == number
            }
            &&& number < 0 ==> bg is Black && fg is White && sp is Red
        }),
{
}

/// A colour number from zero on is a colour of its own, whatever a missing colour would be.
pub proof fn law_colour_numbers(number: i64, unset: ColorChoice)
    ensures
        number >= 0 ==> (ColorChoice::from_number(number, unset) matches ColorChoice::Indexed(n)
            && n == number),
        number < 0 ==> ColorChoice::from_number(number, unset) == unset,
{
}

/// The font that was set is the one drawn with: it is taken over first, the glyphs of the old one
/// are forgotten before the grid is measured and the text is shaped, and everything is painted
/// again at the end.
pub proof fn law_font_is_taken_over<A>(s: StateView<A>, desc: Seq<char>)
    ensures
        s.set_font_desc(desc).render_state.font_desc == desc,
        font_actions(desc).len() == 5,
        font_actions(desc)[0] == Action::UpdateFont(desc),
        font_actions(desc)[1] == Action::<Seq<char>>::Model(ModelOp::ClearGlyphs),
        font_actions(desc)[2] == Action::<Seq<char>>::Ask(Question::GridSize),
        font_actions(desc)[3] == Action::<Seq<char>>::Model(ModelOp::ShapeDirty),
        font_actions(desc)[4] == Action::<Seq<char>>::Draw(DrawOp::QueueAll),
{
}

} // verus!
