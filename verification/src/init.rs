//! The work of starting neovim, step by step.
//!
//! The work is done on a thread of its own. This module decides what comes next; the caller does
//! it and reports how it went.
use crate::options::{optional_text, texts, ShellOptions, ShellOptionsView};
use std::time::Duration;
use vstd::prelude::*;

verus! {

/// How far the work has come.
#[derive(Clone, Copy, Debug, PartialEq, Eq, Structural)]
pub enum InitStage {
    Idle,
    /// The program is being started.
    Starting,
    /// The user interface is being attached.
    Attaching,
    Finished,
}

/// How a step went.
#[derive(Debug, PartialEq, Eq)]
pub enum InitEvent<S> {
    /// Nothing was done yet.
    Begin,
    Started,
    /// The program could not be started: the reason and the command.
    StartFailed { source: S, cmd: S },
    Attached,
    /// The user interface could not be attached: the reason.
    AttachFailed { source: S },
}

/// What is to do next. `L` is a list of `S`.
#[derive(Debug, PartialEq, Eq)]
pub enum InitWork<S, L> {
    /// Start the program.
    Start { nvim_bin_path: Option<S>, timeout: Option<Duration> },
    /// Hand the connection to the shell, and wait until it has taken it.
    HandOver,
    /// Call `State::session_ended` when the session is over.
    WatchSession,
    /// Attach a user interface with a grid of this size and open the files.
    Attach { open_paths: L, columns: u64, rows: u64 },
    /// Call `State::show_nvim_start_error`.
    ShowStartError { source: S, cmd: S },
    /// Call `State::show_nvim_init_error`.
    ShowInitError { source: S },
    /// Call `State::set_nvim_initialized`, and after that `State::nvim_started`.
    MarkInitialized,
}

/// Work as a mathematical value.
pub type InitWorkView = InitWork<Seq<char>, Seq<Seq<char>>>;

impl View for InitEvent<String> {
    type V = InitEvent<Seq<char>>;

    open spec fn view(&self) -> InitEvent<Seq<char>> {
        match *self {
            InitEvent::Begin => InitEvent::Begin,
            InitEvent::Started => InitEvent::Started,
            InitEvent::StartFailed { source, cmd } => InitEvent::StartFailed {
                source: source@,
                cmd: cmd@,
            },
            InitEvent::Attached => InitEvent::Attached,
            InitEvent::AttachFailed { source } => InitEvent::AttachFailed { source: source@ },
        }
    }
}

impl View for InitWork<String, Vec<String>> {
    type V = InitWorkView;

    open spec fn view(&self) -> InitWorkView {
        match *self {
            InitWork::Start { nvim_bin_path, timeout } => InitWork::Start {
                nvim_bin_path: optional_text(nvim_bin_path),
                timeout,
            },
            InitWork::HandOver => InitWork::HandOver,
            InitWork::WatchSession => InitWork::WatchSession,
            InitWork::Attach { open_paths, columns, rows } => InitWork::Attach {
                open_paths: texts(open_paths@),
                columns,
                rows,
            },
            InitWork::ShowStartError { source, cmd } => InitWork::ShowStartError {
                source: source@,
                cmd: cmd@,
            },
            InitWork::ShowInitError { source } => InitWork::ShowInitError { source: source@ },
            InitWork::MarkInitialized => InitWork::MarkInitialized,
        }
    }
}

impl<S, L> InitWork<S, L> {
    /// Whether the start is over with this work, one way or the other.
    pub open spec fn is_outcome(self) -> bool {
        self is ShowStartError || self is ShowInitError || self is MarkInitialized
    }
}

/// The views of a list of work.
pub open spec fn works(list: Seq<InitWork<String, Vec<String>>>) -> Seq<InitWorkView> {
    list.map_values(|work: InitWork<String, Vec<String>>| work@)
}

/// One start of neovim.
#[derive(Debug)]
pub struct NvimInit {
    options: ShellOptions,
    columns: u64,
    rows: u64,
    stage: InitStage,
}

/// What an [`NvimInit`] knows.
pub struct NvimInitView {
    pub options: ShellOptionsView,
    /// The size of the grid.
    pub columns: u64,
    pub rows: u64,
    pub stage: InitStage,
}

impl View for NvimInit {
    type V = NvimInitView;

    closed spec fn view(&self) -> NvimInitView {
        NvimInitView {
            options: self.options@,
            columns: self.columns,
            rows: self.rows,
            stage: self.stage,
        }
    }
}

impl NvimInitView {
    /// Whether an event can come now.
    pub open spec fn expects(self, event: InitEvent<Seq<char>>) -> bool {
        match self.stage {
            InitStage::Idle => event is Begin,
            InitStage::Starting => event is Started || event is StartFailed,
            InitStage::Attaching => event is Attached || event is AttachFailed,
            InitStage::Finished => false,
        }
    }

    pub open spec fn step(self, event: InitEvent<Seq<char>>) -> NvimInitView {
        NvimInitView {
            stage: match event {
                InitEvent::Begin => InitStage::Starting,
                InitEvent::Started => InitStage::Attaching,
                _ => InitStage::Finished,
            },
            ..self
        }
    }

    /// What an event asks to be done.
    pub open spec fn work_after(self, event: InitEvent<Seq<char>>) -> Seq<InitWorkView> {
        match event {
            InitEvent::Begin => seq![
                InitWork::Start {
                    nvim_bin_path: self.options.nvim_bin_path,
                    timeout: self.options.timeout,
                },
            ],
            InitEvent::Started => seq![
                InitWork::HandOver,
                InitWork::WatchSession,
                InitWork::Attach {
                    open_paths: self.options.open_paths,
                    columns: self.columns,
                    rows: self.rows,
                },
            ],
            InitEvent::StartFailed { source, cmd } => seq![
                InitWork::ShowStartError { source, cmd },
            ],
            InitEvent::Attached => seq![InitWork::MarkInitialized],
            InitEvent::AttachFailed { source } => seq![InitWork::ShowInitError { source }],
        }
    }

    /// Whether events can come in this order.
    pub open spec fn expects_all(self, events: Seq<InitEvent<Seq<char>>>) -> bool
        decreases events.len(),
    {
        events.len() > 0 ==> self.expects(events.first()) && self.step(events.first()).expects_all(
            events.drop_first(),
        )
    }

    /// The state after several events.
    pub open spec fn run(self, events: Seq<InitEvent<Seq<char>>>) -> NvimInitView
        decreases events.len(),
    {
        if events.len() == 0 {
            self
        } else {
            self.step(events.first()).run(events.drop_first())
        }
    }

    /// All that several events ask to be done.
    pub open spec fn work_after_all(self, events: Seq<InitEvent<Seq<char>>>) -> Seq<InitWorkView>
        decreases events.len(),
    {
        if events.len() == 0 {
            Seq::empty()
        } else {
            self.work_after(events.first()) + self.step(events.first()).work_after_all(
                events.drop_first(),
            )
        }
    }
}

impl NvimInit {
    /// A start that has not begun.
    pub fn new(options: ShellOptions, columns: u64, rows: u64) -> (init: Self)
        ensures
            init@ == (NvimInitView { options: options@, columns, rows, stage: InitStage::Idle }),
    {
        NvimInit { options, columns, rows, stage: InitStage::Idle }
    }

    /// How far the start has come.
    pub fn stage(&self) -> (stage: InitStage)
        ensures
            stage == self@.stage,
    {
        self.stage
    }

    /// Whether an event can come now.
    pub fn expects(&self, event: &InitEvent<String>) -> (expected: bool)
        ensures
            expected == self@.expects(event@),
    {
        match self.stage {
            InitStage::Idle => matches!(event, InitEvent::Begin),
            InitStage::Starting => matches!(
                event,
                InitEvent::Started | InitEvent::StartFailed { .. }
            ),
            InitStage::Attaching => matches!(
                event,
                InitEvent::Attached | InitEvent::AttachFailed { .. }
            ),
            InitStage::Finished => false,
        }
    }

    /// Takes note of an event and says what is to do next, in this order.
    pub fn init_nvim_async(&mut self, event: InitEvent<String>) -> (work: Vec<
        InitWork<String, Vec<String>>,
    >)
        requires
            old(self)@.expects(event@),
        ensures
            final(self)@ == old(self)@.step(event@),
            works(work@) == old(self)@.work_after(event@),
    {
        let ghost seen = event@;
        let mut work: Vec<InitWork<String, Vec<String>>> = Vec::new();
        match event {
            InitEvent::Begin => {
                let (nvim_bin_path, _, timeout) = self.options.clone().into_parts();
                self.stage = InitStage::Starting;
                work.push(InitWork::Start { nvim_bin_path, timeout });
            },
            InitEvent::Started => {
                let (_, open_paths, _) = self.options.clone().into_parts();
                self.stage = InitStage::Attaching;
                work.push(InitWork::HandOver);
                work.push(InitWork::WatchSession);
                work.push(InitWork::Attach { open_paths, columns: self.columns, rows: self.rows });
            },
            InitEvent::StartFailed { source, cmd } => {
                self.stage = InitStage::Finished;
                work.push(InitWork::ShowStartError { source, cmd });
            },
            InitEvent::Attached => {
                self.stage = InitStage::Finished;
                work.push(InitWork::MarkInitialized);
            },
            InitEvent::AttachFailed { source } => {
                self.stage = InitStage::Finished;
                work.push(InitWork::ShowInitError { source });
            },
        }
        assert(works(work@) =~= old(self)@.work_after(seen));
        work
    }
}

/// Once the program runs, its connection is handed over, the session is watched, and the user
/// interface is attached, whatever the options are: the last work is the only one that attaches, and
/// it names the files and the size that the start was made with.
pub proof fn law_a_running_neovim_is_attached(init: NvimInitView, i: int)
    ensures
        ({
            let work = init.work_after(InitEvent::Started);
            &&& work.len() == 3
            &&& work[0] is HandOver
            &&& work[1] is WatchSession
            &&& 0 <= i < work.len() && work[i] is Attach ==> i == 2
            &&& work.last() matches InitWork::Attach { open_paths, columns, rows }
            &&& open_paths == init.options.open_paths
            &&& columns == init.columns
            &&& rows == init.rows
        }),
{
}

/// The start begins with running the program that the options name, for no longer than they say.
pub proof fn law_the_program_of_the_options_is_run(init: NvimInitView)
    ensures
        ({
            let work = init.work_after(InitEvent::Begin);
            &&& work.len() == 1
            &&& work[0] matches InitWork::Start { nvim_bin_path, timeout }
            &&& nvim_bin_path == init.options.nvim_bin_path
            &&& timeout == init.options.timeout
        }),
{
}

/// A failure is shown with its own reason, and with the command where there is one; a success marks
/// neovim as started.
pub proof fn law_outcomes_are_shown(init: NvimInitView, reason: Seq<char>, command: Seq<char>)
    ensures
        ({
            let not_started = init.work_after(
                InitEvent::StartFailed { source: reason, cmd: command },
            );
            let not_attached = init.work_after(InitEvent::AttachFailed { source: reason });
            let attached = init.work_after(InitEvent::Attached);
            &&& not_started.len() == 1
            &&& not_started[0] matches InitWork::ShowStartError { source, cmd }
            &&& source == reason
            &&& cmd == command
            &&& not_attached.len() == 1
            &&& not_attached[0] matches InitWork::ShowInitError { source: shown }
            &&& shown == reason
            &&& attached.len() == 1
            &&& attached[0] is MarkInitialized
        }),
{
}

/// A start leads on from step to step: after each event that can come, the work ends with starting,
/// with attaching or with an outcome, and what can come next is how that went. The options and the
/// size stay as they are.
pub proof fn law_each_step_leads_on(
    init: NvimInitView,
    event: InitEvent<Seq<char>>,
    later: InitEvent<Seq<char>>,
)
    requires
        init.expects(event),
    ensures
        ({
            let next = init.step(event);
            let work = init.work_after(event);
            &&& work.len() > 0
            &&& work.last() is Start || work.last() is Attach || work.last().is_outcome()
            &&& work.last() is Start ==> (next.expects(later) <==> later is Started
                || later is StartFailed)
            &&& work.last() is Attach ==> (next.expects(later) <==> later is Attached
                || later is AttachFailed)
            &&& work.last().is_outcome() ==> !next.expects(later) && next.stage is Finished
            &&& event is Begin <==> init.stage is Idle
            &&& event is Begin ==> work.last() is Start
            &&& event is Started ==> work.last() is Attach
            &&& next.options == init.options
            &&& next.columns == init.columns
            &&& next.rows == init.rows
        }),
{
}

/// Every start comes to an end: what is not finished can go on, beginning with the event that says
/// that nothing was done yet, and each event that comes brings it nearer to the end.
pub proof fn law_a_start_comes_to_an_end(init: NvimInitView, event: InitEvent<Seq<char>>)
    ensures
        init.stage is Idle ==> init.expects(InitEvent::Begin),
        init.stage is Starting ==> init.expects(InitEvent::Started),
        init.stage is Attaching ==> init.expects(InitEvent::Attached),
        init.stage is Finished ==> !init.expects(event),
        init.expects(event) ==> {
            let next = init.step(event).stage;
            &&& init.stage is Idle ==> next is Starting
            &&& init.stage is Starting ==> next is Attaching || next is Finished
            &&& init.stage is Starting && event is Started ==> next is Attaching
            &&& init.stage is Starting && event is StartFailed ==> next is Finished
            &&& init.stage is Attaching ==> next is Finished
        },
{
}

/// A start has at most one outcome: as long as it is not finished nothing says that it went well
/// or wrong, and when it is finished the last thing to do says so, and nothing before.
pub proof fn law_start_has_one_outcome(init: NvimInitView, events: Seq<InitEvent<Seq<char>>>)
    requires
        init.stage is Idle,
        init.expects_all(events),
    ensures
        ({
            let work = init.work_after_all(events);
            let finished = init.run(events).stage is Finished;
            &&& finished ==> work.len() > 0 && work.last().is_outcome()
            &&& forall|i: int|
                0 <= i < work.len() && (finished ==> i < work.len() - 1) ==> !(
                #[trigger] work[i]).is_outcome()
        }),
{
    reveal_with_fuel(NvimInitView::expects_all, 5);
    reveal_with_fuel(NvimInitView::run, 5);
    reveal_with_fuel(NvimInitView::work_after_all, 5);
}

/// The end of the session is watched for before the user interface is attached, so a neovim that
/// ends meanwhile is noticed.
pub proof fn law_session_is_watched_before_attaching(
    init: NvimInitView,
    events: Seq<InitEvent<Seq<char>>>,
    at: int,
)
    requires
        init.stage is Idle,
        init.expects_all(events),
        0 <= at < init.work_after_all(events).len(),
        init.work_after_all(events)[at] is Attach,
    ensures
        at >= 2,
        init.work_after_all(events)[at - 1] is WatchSession,
        init.work_after_all(events)[at - 2] is HandOver,
{
    reveal_with_fuel(NvimInitView::expects_all, 5);
    reveal_with_fuel(NvimInitView::run, 5);
    reveal_with_fuel(NvimInitView::work_after_all, 5);
}

} // verus!
