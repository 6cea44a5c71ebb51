//! What holds of the shell as a whole, whatever happens in whatever order.
use crate::action::{Action, CursorOp, DrawOp, ModelOp, MouseKey, NvimRequest, TimerOp};
use crate::grid::UiModel;
use crate::machine::{paint_rects, Actions, Picture, StateView};
use crate::mouse::{wheel, ScrollDirection};
use crate::options::ShellOptionsView;
use crate::render_state::Surface;
use crate::state::redraw::{busy_actions, cmdline_block_hide_actions, cmdline_hide_actions};
use vstd::prelude::*;

pub mod changes;
pub mod pointer;
pub mod requests;
pub mod sizes;
pub mod views;

verus! {

/// Anything that changes the state of the shell.
pub enum Event<A> {
    AttachCursor,
    ResizeSurface { width: i32, height: i32 },
    TryNvimResize { columns: usize, rows: usize },
    ResizeTimerFired,
    StartNvimInitialization,
    InitNvim { columns: usize, rows: usize },
    NvimFailed,
    NvimInitialized,
    SessionEnded,
    SetDetachCb(Option<u64>),
    SetNvimStartedCb(Option<u64>),
    SetNvimCommandCb(Option<u64>),
    SetFontDesc(Seq<char>),
    /// Columns and rows.
    OnResize(u64, u64),
    OnHighlightSet(A),
    OnUpdateBg(i64),
    OnUpdateFg(i64),
    OnUpdateSp(i64),
    OnMouse(bool),
}

impl<A> StateView<A> {
    /// What an event makes of a state.
    pub open spec fn step(self, event: Event<A>) -> Self {
        match event {
            Event::AttachCursor => self.attach_cursor(),
            Event::ResizeSurface { width, height } => self.resize_surface(width, height),
            Event::TryNvimResize { columns, rows } => self.try_nvim_resize(columns, rows),
            Event::ResizeTimerFired => self.resize_timer_fired(),
            Event::StartNvimInitialization => self.start_nvim_initialization(),
            Event::InitNvim { columns, rows } => self.init_nvim(columns, rows),
            Event::NvimFailed => self.nvim_failed(),
            Event::NvimInitialized => self.set_nvim_initialized(),
            Event::SessionEnded => self.session_ended(),
            Event::SetDetachCb(cb) => StateView { detach_cb: cb, ..self },
            Event::SetNvimStartedCb(cb) => StateView { nvim_started_cb: cb, ..self },
            Event::SetNvimCommandCb(cb) => StateView { command_cb: cb, ..self },
            Event::SetFontDesc(desc) => self.set_font_desc(desc),
            Event::OnResize(columns, rows) => self.on_resize(columns, rows),
            Event::OnHighlightSet(attrs) => StateView { cur_attrs: Some(attrs), ..self },
            Event::OnUpdateBg(bg) => self.on_update_bg(bg),
            Event::OnUpdateFg(fg) => self.on_update_fg(fg),
            Event::OnUpdateSp(sp) => self.on_update_sp(sp),
            Event::OnMouse(on) => StateView { mouse_enabled: on, ..self },
        }
    }

    /// What events make of a state, one after the other.
    pub open spec fn run(self, events: Seq<Event<A>>) -> Self
        decreases events.len(),
    {
        if events.len() == 0 {
            self
        } else {
            self.run(events.drop_last()).step(events.last())
        }
    }
}

/// Every state that the shell reaches satisfies the invariant, has the cursor, and keeps the
/// options and the choice of double buffering that it was made with.
pub proof fn law_reachable_states<A>(
    options: ShellOptionsView,
    double_buffer: bool,
    events: Seq<Event<A>>,
)
    ensures
        ({
            let s = StateView::<A>::initial(options, double_buffer).attach_cursor().run(events);
            &&& s.inv()
            &&& s.cursor
            &&& s.options == options
            &&& s.enable_double_buffer == double_buffer
        }),
    decreases events.len(),
{
    if events.len() > 0 {
        law_reachable_states(options, double_buffer, events.drop_last());
    }
}

/// Every event keeps the invariant.
pub proof fn law_every_event_keeps_the_invariant<A>(s: StateView<A>, event: Event<A>)
    requires
        s.inv(),
    ensures
        s.step(event).inv(),
{
}

/// With double buffering, once the back buffer was made to fit the drawing area it is there for
/// good, so that every later draw event finds it.
pub proof fn law_back_buffer_stays<A>(
    s: StateView<A>,
    width: i32,
    height: i32,
    events: Seq<Event<A>>,
)
    requires
        s.enable_double_buffer,
    ensures
        s.resize_surface(width, height).surface == Some(Surface { width, height }),
        s.resize_surface(width, height).run(events).surface is Some,
    decreases events.len(),
{
    if events.len() > 0 {
        law_back_buffer_stays(s, width, height, events.drop_last());
    }
}

/// The back buffer is created once for each size: asked again for the same size, nothing is to do.
pub proof fn law_back_buffer_is_made_once<A>(s: StateView<A>, width: i32, height: i32)
    ensures
        ({
            let next = s.resize_surface(width, height);
            &&& next.resize_surface(width, height) == next
            &&& next.resize_surface_actions(width, height) == Actions::empty()
        }),
{
}

/// Whether no event of a kind occurs.
pub open spec fn without<A>(events: Seq<Event<A>>, kind: spec_fn(Event<A>) -> bool) -> bool {
    forall|i: int| 0 <= i < events.len() ==> !kind(#[trigger] events[i])
}

proof fn lemma_without_drop_last<A>(events: Seq<Event<A>>, kind: spec_fn(Event<A>) -> bool)
    requires
        events.len() > 0,
    ensures
        without(events, kind) ==> without(events.drop_last(), kind) && !kind(events.last()),
{
    if without(events, kind) {
        assert forall|i: int| 0 <= i < events.drop_last().len() implies !kind(
            #[trigger] events.drop_last()[i],
        ) by {
            assert(events.drop_last()[i] == events[i]);
        }
    }
}

/// Neovim is started once: after its start it is not started again before the session ends.
pub proof fn law_nvim_is_started_once<A>(s: StateView<A>, events: Seq<Event<A>>)
    requires
        without(events, |e: Event<A>| e is SessionEnded),
    ensures
        s.start_nvim_initialization().run(events).nvim !is Uninitialized,
    decreases events.len(),
{
    if events.len() > 0 {
        lemma_without_drop_last(events, |e: Event<A>| e is SessionEnded);
        law_nvim_is_started_once(s, events.drop_last());
    }
}

/// The grid is drawn only once neovim has started: before, and after a failure, nothing is drawn
/// but the notice while the start goes on.
pub proof fn law_what_is_drawn_when<A>(s: StateView<A>)
    ensures
        s.start_nvim_initialization().nvim is InProgress
            ==> s.start_nvim_initialization().picture() == Picture::Initializing,
        s.nvim_failed().picture() == Picture::Nothing,
        s.session_ended().picture() == Picture::Nothing,
        s.set_nvim_initialized().picture() == Picture::DoubleBuffer
            || s.set_nvim_initialized().picture() == Picture::Direct,
{
}

/// Asking twice for the same grid size is asking once.
pub proof fn law_resize_is_asked_for_once<A>(s: StateView<A>, columns: usize, rows: usize)
    ensures
        ({
            let next = s.try_nvim_resize(columns, rows);
            &&& next.try_nvim_resize(columns, rows) == next
            &&& next.try_nvim_resize_actions(columns, rows) == Actions::empty()
        }),
{
}

/// A size that neovim has set itself is not asked for, nor the one that it was started with.
pub proof fn law_resize_settles<A>(s: StateView<A>, columns: u64, rows: u64)
    ensures
        ({
            let next = s.on_resize(columns, rows);
            &&& next.try_nvim_resize(columns as usize, rows as usize) == next
            &&& next.try_nvim_resize_actions(columns as usize, rows as usize) == Actions::empty()
        }),
        s.nvim is Uninitialized ==> s.init_nvim(
            columns as usize,
            rows as usize,
        ).try_nvim_resize_actions(columns as usize, rows as usize) == Actions::empty(),
{
}

proof fn lemma_requests_tell_sizes_apart(
    columns: usize,
    rows: usize,
    other_columns: usize,
    other_rows: usize,
)
    requires
        (rows as i64, columns as i64) == (other_rows as i64, other_columns as i64),
    ensures
        columns == other_columns,
        rows == other_rows,
{
    assert(columns as i64 == other_columns as i64 ==> columns == other_columns) by (bit_vector);
    assert(rows as i64 == other_rows as i64 ==> rows == other_rows) by (bit_vector);
}

/// The drawing area may have got another size while neovim was being started. Once neovim has
/// started, the grid has that size or a timer runs, and when it fires neovim is asked for the size,
/// whatever came of requests before. The one size left out is the one that looks like no request:
/// all bits of the columns and of the rows are set.
pub proof fn law_size_after_start_is_not_forgotten<A>(
    s: StateView<A>,
    columns: usize,
    rows: usize,
)
    requires
        s.inv(),
        (rows as i64, columns as i64) != (-1i64, -1i64),
    ensures
        ({
            let next = s.set_nvim_initialized().try_nvim_resize(columns, rows);
            ||| next.model == UiModel { rows, columns }
            ||| {
                &&& next.resize_timer == Some((columns, rows))
                &&& next.resize_timer_actions(true) == seq![
                    Action::<Seq<char>>::Nvim(
                        NvimRequest::TryResize { columns: columns as u64, rows: rows as u64 },
                    ),
                ]
            }
        }),
{
    if let Some((waiting_columns, waiting_rows)) = s.resize_timer {
        if s.resize_request == (rows as i64, columns as i64) {
            lemma_requests_tell_sizes_apart(waiting_columns, waiting_rows, columns, rows);
        }
    }
}

/// How many timers run after actions, when so many ran before.
pub open spec fn timers_after(before: int, actions: Actions) -> int
    decreases actions.len(),
{
    if actions.len() == 0 {
        before
    } else {
        timers_after(before, actions.drop_last()) + match actions.last() {
            Action::Timer(TimerOp::Start { .. }) => 1int,
            Action::Timer(TimerOp::Cancel) => -1int,
            _ => 0int,
        }
    }
}

impl<A> StateView<A> {
    /// How many timers run.
    pub open spec fn timers(self) -> int {
        if self.resize_timer is Some {
            1
        } else {
            0
        }
    }
}

/// At most one resize waits: a request for another size cancels the timer of the one before, and
/// the state knows whether a timer runs.
pub proof fn law_one_resize_waits<A>(s: StateView<A>, columns: usize, rows: usize)
    ensures
        timers_after(s.timers(), s.try_nvim_resize_actions(columns, rows)) == s.try_nvim_resize(
            columns,
            rows,
        ).timers(),
        s.try_nvim_resize(columns, rows).timers() <= 1,
        s.resize_timer_fired().timers() == 0,
{
    reveal_with_fuel(timers_after, 3);
    let actions = s.try_nvim_resize_actions(columns, rows);
    if actions.len() == 2 {
        assert(actions.drop_last() =~= seq![Action::Timer(TimerOp::Cancel)]);
        assert(actions.drop_last().drop_last() =~= Actions::empty());
    } else if actions.len() == 1 {
        assert(actions.drop_last() =~= Actions::empty());
    }
}

impl<A> StateView<A> {
    /// How many timers run after events, as the actions of the events start and cancel them. A
    /// timer that fires is over.
    pub open spec fn timers_running(self, events: Seq<Event<A>>) -> int
        decreases events.len(),
    {
        if events.len() == 0 {
            self.timers()
        } else {
            let running = self.timers_running(events.drop_last());
            let state = self.run(events.drop_last());
            match events.last() {
                Event::TryNvimResize { columns, rows } => timers_after(
                    running,
                    state.try_nvim_resize_actions(columns, rows),
                ),
                Event::ResizeTimerFired => if running > 0 {
                    running - 1
                } else {
                    running
                },
                _ => running,
            }
        }
    }
}

/// Whatever happens, at most one timer runs, and the state knows whether one does.
pub proof fn law_state_knows_the_timer<A>(s: StateView<A>, events: Seq<Event<A>>)
    ensures
        s.timers_running(events) == s.run(events).timers(),
        0 <= s.timers_running(events) <= 1,
    decreases events.len(),
{
    if events.len() > 0 {
        law_state_knows_the_timer(s, events.drop_last());
        if let Event::TryNvimResize { columns, rows } = events.last() {
            law_one_resize_waits(s.run(events.drop_last()), columns, rows);
        }
    }
}

impl<A> StateView<A> {
    /// What neovim hears of resizes in the course of events, when it can be reached.
    pub open spec fn resizes_sent(self, events: Seq<Event<A>>) -> Actions
        decreases events.len(),
    {
        if events.len() == 0 {
            Actions::empty()
        } else {
            let state = self.run(events.drop_last());
            let actions = match events.last() {
                Event::TryNvimResize { columns, rows } => state.try_nvim_resize_actions(
                    columns,
                    rows,
                ),
                Event::ResizeTimerFired => state.resize_timer_actions(true),
                _ => Actions::empty(),
            };
            self.resizes_sent(events.drop_last()) + actions.filter(
                |action: Action<Seq<char>>| action is Nvim,
            )
        }
    }
}

/// Requests for grid sizes, one after the other. A size has columns and rows.
pub open spec fn resizes<A>(sizes: Seq<(usize, usize)>) -> Seq<Event<A>> {
    sizes.map_values(
        |size: (usize, usize)| Event::TryNvimResize { columns: size.0, rows: size.1 },
    )
}

/// However many sizes are asked for while a resize waits, neovim hears of nothing until the timer
/// fires, and then of the last size alone. None of the sizes is the one that the grid has, and the
/// first one makes a resize wait unless one does already.
pub proof fn law_last_resize_wins<A>(s: StateView<A>, sizes: Seq<(usize, usize)>)
    requires
        sizes.len() > 0,
        forall|i: int|
            0 <= i < sizes.len() ==> s.model != (UiModel {
                rows: (#[trigger] sizes[i]).1,
                columns: sizes[i].0,
            }),
        s.resize_wanted(sizes[0].0, sizes[0].1) || (s.inv() && s.resize_timer is Some),
    ensures
        ({
            let events = resizes::<A>(sizes);
            let fired = events.push(Event::ResizeTimerFired);
            &&& s.run(events).resize_timer == Some(sizes.last())
            &&& s.resizes_sent(events) == Actions::empty()
            &&& s.run(fired).resize_timer is None
            &&& s.resizes_sent(fired) == seq![
                Action::<Seq<char>>::Nvim(
                    NvimRequest::TryResize {
                        columns: sizes.last().0 as u64,
                        rows: sizes.last().1 as u64,
                    },
                ),
            ]
        }),
{
    let events = resizes::<A>(sizes);
    let fired = events.push(Event::ResizeTimerFired);
    lemma_resizes_wait(s, sizes);
    assert(fired.drop_last() =~= events);
    let actions = s.run(events).resize_timer_actions(true);
    reveal_with_fuel(Seq::filter, 2);
    assert(actions.drop_last() =~= Actions::empty());
    assert(actions.filter(|action: Action<Seq<char>>| action is Nvim) =~= actions);
}

proof fn lemma_resizes_wait<A>(s: StateView<A>, sizes: Seq<(usize, usize)>)
    requires
        sizes.len() > 0,
        forall|i: int|
            0 <= i < sizes.len() ==> s.model != (UiModel {
                rows: (#[trigger] sizes[i]).1,
                columns: sizes[i].0,
            }),
        s.resize_wanted(sizes[0].0, sizes[0].1) || (s.inv() && s.resize_timer is Some),
    ensures
        ({
            let next = s.run(resizes(sizes));
            let (columns, rows) = sizes.last();
            &&& next.model == s.model
            &&& next.resize_timer == Some((columns, rows))
            &&& next.resize_request == (rows as i64, columns as i64)
            &&& s.resizes_sent(resizes(sizes)) == Actions::empty()
        }),
    decreases sizes.len(),
{
    let events = resizes::<A>(sizes);
    let earlier = sizes.drop_last();
    let (columns, rows) = sizes.last();
    assert(events.drop_last() =~= resizes(earlier));
    assert(sizes.last() == sizes[sizes.len() - 1]);
    let state = s.run(resizes(earlier));
    if earlier.len() > 0 {
        assert forall|i: int| 0 <= i < earlier.len() implies s.model != (UiModel {
            rows: (#[trigger] earlier[i]).1,
            columns: earlier[i].0,
        }) by {
            assert(earlier[i] == sizes[i]);
        }
        assert(earlier[0] == sizes[0]);
        lemma_resizes_wait(s, earlier);
    }
    if let Some((waiting_columns, waiting_rows)) = state.resize_timer {
        if state.resize_request == (rows as i64, columns as i64) {
            lemma_requests_tell_sizes_apart(waiting_columns, waiting_rows, columns, rows);
        }
    }
    assert(events.last() == Event::<A>::TryNvimResize { columns, rows });
    assert(s.run(events) == state.try_nvim_resize(columns, rows));
    let actions = state.try_nvim_resize_actions(columns, rows);
    assert(actions.filter(|action: Action<Seq<char>>| action is Nvim) =~= Actions::empty()) by {
        reveal_with_fuel(Seq::filter, 3);
        if actions.len() == 2 {
            assert(actions.drop_last() =~= seq![Action::Timer(TimerOp::Cancel)]);
            assert(actions.drop_last().drop_last() =~= Actions::empty());
        } else if actions.len() == 1 {
            assert(actions.drop_last() =~= Actions::empty());
        }
    }
    assert(s.resizes_sent(resizes(earlier)) =~= Actions::empty());
}

/// When the timer of a resize fires, neovim hears of the size that was asked for last.
pub proof fn law_waiting_resize_is_the_last_asked_for<A>(s: StateView<A>, columns: usize, rows: usize)
    requires
        s.inv(),
        s.resize_timer == Some((columns, rows)),
    ensures
        s.resize_request == (rows as i64, columns as i64),
        s.resize_timer_actions(true) == seq![
            Action::<Seq<char>>::Nvim(
                NvimRequest::TryResize { columns: columns as u64, rows: rows as u64 },
            ),
        ],
        s.resize_timer_actions(false) == Actions::empty(),
{
}

/// While neovim does not want to hear of the mouse, it does not.
pub proof fn law_no_mouse_when_disabled<A>(
    s: StateView<A>,
    direction: ScrollDirection,
    popup_open: bool,
    connected: bool,
    is_press: bool,
    button: u32,
    pressed: bool,
)
    requires
        !s.mouse_enabled,
    ensures
        s.scroll_actions(direction, popup_open, connected) == Actions::empty(),
        s.press_actions(is_press, button) == Actions::empty(),
        s.release_actions(button) == Actions::empty(),
        s.motion_actions(pressed) == Actions::empty(),
        s.pressed_after_press(is_press, pressed) == pressed,
        !s.adds_up_scrolling(),
{
}

/// A button goes down or up.
pub enum ButtonEvent<A> {
    /// A button event in a state, with whether it is a plain press.
    Press(StateView<A>, bool),
    Release,
}

/// Whether a button is held down after events, when none was before.
pub open spec fn held_down<A>(events: Seq<ButtonEvent<A>>) -> bool
    decreases events.len(),
{
    if events.len() == 0 {
        false
    } else {
        match events.last() {
            ButtonEvent::Press(state, is_press) => state.pressed_after_press(
                is_press,
                held_down(events.drop_last()),
            ),
            ButtonEvent::Release => false,
        }
    }
}

/// Whether an event is a plain press while neovim wants to hear of the mouse.
pub open spec fn starts_drag<A>(event: ButtonEvent<A>) -> bool {
    event matches ButtonEvent::Press(state, is_press) && is_press && state.mouse_enabled
}

/// Whether a drag has started at an event and goes on: no button was released since.
pub open spec fn drags_since<A>(events: Seq<ButtonEvent<A>>, start: int) -> bool {
    &&& 0 <= start < events.len()
    &&& starts_drag(events[start])
    &&& forall|j: int| start < j < events.len() ==> (#[trigger] events[j]) !is Release
}

proof fn lemma_held_down_while_dragging<A>(events: Seq<ButtonEvent<A>>)
    ensures
        held_down(events) <==> exists|start: int| drags_since(events, start),
    decreases events.len(),
{
    if events.len() > 0 {
        let earlier = events.drop_last();
        lemma_held_down_while_dragging(earlier);
        if held_down(earlier) && events.last() !is Release {
            let start = choose|start: int| drags_since(earlier, start);
            assert forall|j: int| start < j < events.len() implies (
            #[trigger] events[j]) !is Release by {
                if j < earlier.len() {
                    assert(earlier[j] == events[j]);
                }
            }
            assert(drags_since(events, start));
        }
        if starts_drag(events.last()) {
            assert(drags_since(events, events.len() - 1));
        }
        assert forall|start: int| drags_since(events, start) && start < earlier.len() implies
            held_down(events) by {
            assert(events[events.len() - 1] !is Release);
            assert forall|j: int| start < j < earlier.len() implies (
            #[trigger] earlier[j]) !is Release by {
                assert(earlier[j] == events[j]);
            }
            assert(drags_since(earlier, start));
        }
    }
}

/// Moving the mouse is dragging from a press that neovim hears of to the next release of a button,
/// and only then.
pub proof fn law_drag_lasts_from_press_to_release<A>(
    s: StateView<A>,
    events: Seq<ButtonEvent<A>>,
)
    requires
        s.mouse_enabled,
    ensures
        s.motion_actions(held_down(events)) == if exists|start: int| drags_since(events, start) {
            seq![Action::<Seq<char>>::Mouse { key: MouseKey::LeftDrag, times: 1 }]
        } else {
            Actions::empty()
        },
{
    lemma_held_down_while_dragging(events);
}

/// How often `forward` is sent, less how often `backward` is.
pub open spec fn net(actions: Actions, forward: MouseKey, backward: MouseKey) -> int
    decreases actions.len(),
{
    if actions.len() == 0 {
        0
    } else {
        net(actions.drop_last(), forward, backward) + match actions.last() {
            Action::Mouse { key, times } => if key == forward {
                times as int
            } else if key == backward {
                -(times as int)
            } else {
                0
            },
            _ => 0,
        }
    }
}

/// Smooth scrolling loses no step and adds none: the keys sent make up the steps in both
/// directions.
pub proof fn law_smooth_scroll_makes_up_the_steps(x: isize, y: isize)
    requires
        x > isize::MIN,
        y > isize::MIN,
    ensures
        ({
            let keys = wheel(ScrollDirection::Smooth { x, y });
            &&& net(keys, MouseKey::ScrollWheelRight, MouseKey::ScrollWheelLeft) == x
            &&& net(keys, MouseKey::ScrollWheelDown, MouseKey::ScrollWheelUp) == y
        }),
{
    reveal_with_fuel(net, 3);
    let keys = wheel(ScrollDirection::Smooth { x, y });
    if keys.len() == 2 {
        assert(keys.drop_last().drop_last() =~= Actions::empty());
    } else if keys.len() == 1 {
        assert(keys.drop_last() =~= Actions::empty());
    }
}

/// Each rectangle that is painted again is extended by the text as it was before shaping, and
/// again after, right before it is painted, and it is painted once.
pub proof fn law_rects_cover_text_before_and_after(count: usize, rect: usize)
    requires
        rect < count,
    ensures
        ({
            let plan = paint_rects(count as nat);
            let shaping = count as int;
            let painted = count + 2 + 2 * rect;
            &&& plan.len() == 3 * count + 1
            &&& plan[shaping] == Action::<Seq<char>>::Model(ModelOp::ShapeDirty)
            &&& plan[rect as int] == Action::<Seq<char>>::Draw(DrawOp::ExtendRect(rect))
            &&& plan[painted - 1] == Action::<Seq<char>>::Draw(DrawOp::ExtendRect(rect))
            &&& plan[painted] == Action::<Seq<char>>::Draw(DrawOp::QueueRect(rect))
            &&& forall|i: int|
                0 <= i < plan.len() && #[trigger] plan[i] == Action::<Seq<char>>::Draw(
                    DrawOp::QueueRect(rect),
                ) ==> i == painted
            &&& forall|i: int|
                0 <= i < plan.len() && #[trigger] plan[i] == Action::<Seq<char>>::Model(
                    ModelOp::ShapeDirty,
                ) ==> i == shaping
        }),
{
}

/// Whether the cursor is busy after actions.
pub open spec fn busy_after(before: bool, actions: Actions) -> bool
    decreases actions.len(),
{
    if actions.len() == 0 {
        before
    } else {
        match actions.last() {
            Action::Cursor(CursorOp::BusyOn) => true,
            Action::Cursor(CursorOp::BusyOff) => false,
            _ => busy_after(before, actions.drop_last()),
        }
    }
}

/// The cursor is busy once the command line or a block is shown, and hiding either ends that,
/// whatever was done before.
pub proof fn law_hiding_the_command_line_ends_busy(before: bool, done: Actions, level: u64)
    ensures
        busy_after(before, done + busy_actions(true)),
        !busy_after(before, done + busy_actions(false)),
        !busy_after(before, done + cmdline_hide_actions(level)),
        !busy_after(before, done + cmdline_block_hide_actions()),
{
}

/// What was set last stays, whatever else happens: the attributes, the font, the wish to hear of the
/// mouse, and the callbacks, those removed among them.
pub proof fn law_settings_stay<A>(
    s: StateView<A>,
    attrs: A,
    desc: Seq<char>,
    on: bool,
    cb: Option<u64>,
    events: Seq<Event<A>>,
)
    ensures
        without(events, |e: Event<A>| e is OnHighlightSet) ==> s.step(
            Event::OnHighlightSet(attrs),
        ).run(events).cur_attrs == Some(attrs),
        without(events, |e: Event<A>| e is SetFontDesc) ==> s.step(Event::SetFontDesc(desc)).run(
            events,
        ).render_state.font_desc == desc,
        without(events, |e: Event<A>| e is OnMouse) ==> s.step(Event::OnMouse(on)).run(
            events,
        ).mouse_enabled == on,
        without(events, |e: Event<A>| e is SetDetachCb) ==> s.step(Event::SetDetachCb(cb)).run(
            events,
        ).detach_cb == cb,
        without(events, |e: Event<A>| e is SetNvimStartedCb) ==> s.step(
            Event::SetNvimStartedCb(cb),
        ).run(events).nvim_started_cb == cb,
        without(events, |e: Event<A>| e is SetNvimCommandCb) ==> s.step(
            Event::SetNvimCommandCb(cb),
        ).run(events).command_cb == cb,
    decreases events.len(),
{
    if events.len() > 0 {
        lemma_without_drop_last(events, |e: Event<A>| e is OnHighlightSet);
        lemma_without_drop_last(events, |e: Event<A>| e is SetFontDesc);
        lemma_without_drop_last(events, |e: Event<A>| e is OnMouse);
        lemma_without_drop_last(events, |e: Event<A>| e is SetDetachCb);
        lemma_without_drop_last(events, |e: Event<A>| e is SetNvimStartedCb);
        lemma_without_drop_last(events, |e: Event<A>| e is SetNvimCommandCb);
        law_settings_stay(s, attrs, desc, on, cb, events.drop_last());
    }
}

} // verus!
