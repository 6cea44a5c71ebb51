//! The sizes of the grid, of the requests for another one, and of the back buffer.
use crate::action::{Action, DrawOp, ModelOp, NvimRequest, TimerOp};
use crate::grid::UiModel;
use crate::laws::Event;
use crate::machine::{Actions, StateView};
use crate::render_state::Surface;
use vstd::prelude::*;

verus! {

/// A size that differs from the grid in the rows or in the columns, and from the request before in
/// the rows or in the columns, waits from now on for a timer of 200 milliseconds. The timer of an
/// earlier request is cancelled first.
pub proof fn law_another_size_is_asked_for<A>(s: StateView<A>, columns: usize, rows: usize)
    requires
        s.model.rows != rows || s.model.columns != columns,
        s.resize_request.0 != rows as i64 || s.resize_request.1 != columns as i64,
    ensures
        ({
            let next = s.try_nvim_resize(columns, rows);
            let actions = s.try_nvim_resize_actions(columns, rows);
            &&& next.resize_timer == Some((columns, rows))
            &&& next.resize_request.0 == rows as i64
            &&& next.resize_request.1 == columns as i64
            &&& actions.len() > 0
            &&& actions.last() == Action::<Seq<char>>::Timer(TimerOp::Start { delay_ms: 200 })
            &&& s.resize_timer is None ==> actions.len() == 1
            &&& s.resize_timer is Some ==> actions.len() == 2 && actions[0] == Action::<
                Seq<char>,
            >::Timer(TimerOp::Cancel)
        }),
{
}

/// Nothing happens for the size that the grid has, nor for the one that was asked for last: the
/// rows and the columns have to agree.
pub proof fn law_known_size_is_not_asked_for<A>(s: StateView<A>, columns: usize, rows: usize)
    requires
        (s.model.rows == rows && s.model.columns == columns) || (s.resize_request.0 == rows as i64
            && s.resize_request.1 == columns as i64),
    ensures
        s.try_nvim_resize(columns, rows) == s,
        s.try_nvim_resize_actions(columns, rows).len() == 0,
{
}

/// Once the timer has fired no resize waits. What waited has gone to neovim if it can be reached,
/// with its columns and rows, and nothing goes to neovim where nothing waited.
pub proof fn law_fired_timer_sends_what_waited<A>(
    s: StateView<A>,
    columns: usize,
    rows: usize,
    connected: bool,
)
    ensures
        s.resize_timer_fired().resize_timer is None,
        s.resize_timer is None || !connected ==> s.resize_timer_actions(connected).len() == 0,
        s.resize_timer == Some((columns, rows)) && connected ==> {
            let sent = s.resize_timer_actions(connected);
            &&& sent.len() == 1
            &&& sent[0] matches Action::Nvim(NvimRequest::TryResize { columns: c, rows: r })
            &&& c == columns
            &&& r == rows
        },
{
}

/// A request that was wanted reaches neovim when its timer fires, and is not made a second time.
pub proof fn law_wanted_size_reaches_neovim<A>(s: StateView<A>, columns: usize, rows: usize)
    requires
        s.model.rows != rows || s.model.columns != columns,
        s.resize_request.0 != rows as i64 || s.resize_request.1 != columns as i64,
    ensures
        ({
            let waiting = s.try_nvim_resize(columns, rows);
            let sent = waiting.resize_timer_actions(true);
            &&& sent.len() == 1
            &&& sent[0] matches Action::Nvim(NvimRequest::TryResize { columns: c, rows: r })
            &&& c == columns
            &&& r == rows
            &&& waiting.resize_timer_fired().try_nvim_resize_actions(columns, rows).len() == 0
            &&& waiting.resize_timer_fired().resize_timer_actions(true).len() == 0
        }),
{
}

/// Whenever neovim names other columns or other rows than the grid has, the grid is replaced by
/// one with exactly the rows and columns named, and otherwise it is kept. The theme is asked for
/// after that, each time and only when neovim can be reached.
pub proof fn law_grid_follows_neovim<A>(
    s: StateView<A>,
    columns: u64,
    rows: u64,
    connected: bool,
)
    ensures
        ({
            let next = s.on_resize(columns, rows);
            let actions = s.on_resize_actions(columns, rows, connected);
            let replaced = s.model.columns != columns as usize || s.model.rows != rows as usize;
            &&& next.model.columns == columns as usize
            &&& next.model.rows == rows as usize
            &&& replaced ==> actions.len() > 0 && actions[0] == Action::<Seq<char>>::Model(
                ModelOp::New { rows, columns },
            )
            &&& connected ==> actions.len() > 0 && actions.last() == Action::<Seq<char>>::Nvim(
                NvimRequest::UpdateTheme,
            )
            &&& actions.len() == (if replaced {
                1int
            } else {
                0
            }) + (if connected {
                1int
            } else {
                0
            })
        }),
{
}

/// The grid that neovim is started with has the size of the drawing area.
pub proof fn law_neovim_starts_with_the_size_of_the_area<A>(
    s: StateView<A>,
    columns: usize,
    rows: usize,
)
    ensures
        s.nvim is Uninitialized ==> s.init_nvim(columns, rows).model == (UiModel { rows, columns }),
        s.nvim !is Uninitialized ==> s.init_nvim(columns, rows).model == s.model,
{
}

/// The size of the grid after actions: each new grid replaces the one before.
pub open spec fn grid_after(before: UiModel, actions: Actions) -> UiModel
    decreases actions.len(),
{
    if actions.len() == 0 {
        before
    } else {
        match actions.last() {
            Action::Model(ModelOp::New { rows, columns }) => UiModel {
                rows: rows as usize,
                columns: columns as usize,
            },
            _ => grid_after(before, actions.drop_last()),
        }
    }
}

impl<A> StateView<A> {
    /// The size of the grid that the scripts of events have left, one after the other.
    pub open spec fn grid_left(self, events: Seq<Event<A>>, connected: bool) -> UiModel
        decreases events.len(),
    {
        if events.len() == 0 {
            self.model
        } else {
            let state = self.run(events.drop_last());
            let before = self.grid_left(events.drop_last(), connected);
            match events.last() {
                Event::InitNvim { columns, rows } => if state.nvim is Uninitialized {
                    grid_after(
                        before,
                        seq![
                            Action::Model(
                                ModelOp::New { rows: rows as u64, columns: columns as u64 },
                            ),
                        ],
                    )
                } else {
                    before
                },
                Event::OnResize(columns, rows) => grid_after(
                    before,
                    state.on_resize_actions(columns, rows, connected),
                ),
                _ => before,
            }
        }
    }
}

/// After any events the state counts the rows and columns of the grid that was made last.
pub proof fn law_state_knows_the_grid<A>(
    s: StateView<A>,
    events: Seq<Event<A>>,
    connected: bool,
)
    ensures
        s.run(events).model == s.grid_left(events, connected),
    decreases events.len(),
{
    if events.len() > 0 {
        law_state_knows_the_grid(s, events.drop_last(), connected);
        let state = s.run(events.drop_last());
        reveal_with_fuel(grid_after, 3);
        if let Event::OnResize(columns, rows) = events.last() {
            let actions = state.on_resize_actions(columns, rows, connected);
            if actions.len() == 2 {
                assert(actions.drop_last() =~= seq![
                    Action::Model(ModelOp::New { rows, columns }),
                ]);
            } else if actions.len() == 1 {
                assert(actions.drop_last() =~= Actions::empty());
            }
        }
    }
}

/// With double buffering the back buffer gets the size of the drawing area, and it is created
/// exactly when it had another width, another height, or was not there. Without double buffering
/// there is nothing to do.
pub proof fn law_back_buffer_fits<A>(s: StateView<A>, width: i32, height: i32)
    ensures
        ({
            let next = s.resize_surface(width, height);
            let actions = s.resize_surface_actions(width, height);
            let fits = s.surface matches Some(surface) && surface.width == width && surface.height
                == height;
            &&& s.enable_double_buffer ==> next.surface == Some(Surface { width, height })
            &&& s.enable_double_buffer && !fits ==> actions.len() == 1 && actions[0] == Action::<
                Seq<char>,
            >::Draw(DrawOp::CreateSurface { width, height })
            &&& !s.enable_double_buffer || fits ==> actions.len() == 0
            &&& !s.enable_double_buffer ==> next.surface == s.surface
        }),
{
}

} // verus!
