use nvim_gtk_shell::action::{
    Action, ClientOp, CursorOp, ErrorPageOp, ModelOp, NvimRequest, Question, TimerOp,
};
use nvim_gtk_shell::init::{InitEvent, InitStage, InitWork, NvimInit};
use nvim_gtk_shell::machine::Picture;
use nvim_gtk_shell::mouse::Inhibit;
use nvim_gtk_shell::options::ShellOptions;
use nvim_gtk_shell::shell::Shell;
use nvim_gtk_shell::state::lifecycle::Drawn;
use std::time::Duration;

fn options() -> ShellOptions {
    ShellOptions::new(
        Some("/usr/bin/nvim".to_owned()),
        vec!["a".to_owned(), "b c".to_owned()],
        Some(Duration::from_secs(10)),
    )
}

fn drawn(picture: Picture) -> Drawn {
    Drawn { picture, inhibit: Inhibit(false) }
}

fn shell(double_buffer: Option<&str>) -> Shell<u8> {
    Shell::new(options(), double_buffer)
}

#[test]
fn options_are_kept() {
    let (path, files, timeout) = options().clone().into_parts();
    assert_eq!(path, Some("/usr/bin/nvim".to_owned()));
    assert_eq!(files, vec!["a".to_owned(), "b c".to_owned()]);
    assert_eq!(timeout, Some(Duration::from_secs(10)));
}

#[test]
fn first_size_starts_nvim() {
    let mut s = shell(None);
    let (script, mut init) = s.state.init_nvim(80, 24).unwrap();
    assert_eq!(script.actions, vec![Action::Model(ModelOp::New { rows: 24, columns: 80 })]);
    assert_eq!(init.stage(), InitStage::Idle);
    assert_eq!(
        init.init_nvim_async(InitEvent::Begin),
        vec![InitWork::Start {
            nvim_bin_path: Some("/usr/bin/nvim".to_owned()),
            timeout: Some(Duration::from_secs(10)),
        }]
    );
    assert!(s.state.init_nvim(100, 30).is_none());
    assert!(s.state.try_nvim_resize(80, 24).actions.is_empty());
}

#[test]
fn start_that_goes_well() {
    let mut init = NvimInit::new(options(), 80, 24);
    init.init_nvim_async(InitEvent::Begin);
    assert_eq!(init.stage(), InitStage::Starting);
    assert_eq!(
        init.init_nvim_async(InitEvent::Started),
        vec![
            InitWork::HandOver,
            InitWork::WatchSession,
            InitWork::Attach {
                open_paths: vec!["a".to_owned(), "b c".to_owned()],
                columns: 80,
                rows: 24,
            },
        ]
    );
    assert_eq!(init.stage(), InitStage::Attaching);
    assert_eq!(init.init_nvim_async(InitEvent::Attached), vec![InitWork::MarkInitialized]);
    assert_eq!(init.stage(), InitStage::Finished);
}

#[test]
fn start_that_fails() {
    let mut init = NvimInit::new(options(), 80, 24);
    init.init_nvim_async(InitEvent::Begin);
    let failed = InitEvent::StartFailed { source: "no such file".to_owned(), cmd: "nvim".to_owned() };
    assert_eq!(
        init.init_nvim_async(failed),
        vec![InitWork::ShowStartError { source: "no such file".to_owned(), cmd: "nvim".to_owned() }]
    );
    assert_eq!(init.stage(), InitStage::Finished);
}

#[test]
fn attaching_that_fails() {
    let mut init = NvimInit::new(options(), 80, 24);
    init.init_nvim_async(InitEvent::Begin);
    init.init_nvim_async(InitEvent::Started);
    assert_eq!(
        init.init_nvim_async(InitEvent::AttachFailed { source: "too old".to_owned() }),
        vec![InitWork::ShowInitError { source: "too old".to_owned() }]
    );
    assert_eq!(init.stage(), InitStage::Finished);
}

#[test]
fn start_error_is_shown() {
    let mut s = shell(None);
    s.state.init_nvim(80, 24);
    assert_eq!(
        s.state.show_nvim_start_error("reason".to_owned(), "nvim --embed".to_owned()).actions,
        vec![
            Action::ErrorPage(ErrorPageOp::StartError {
                source: "reason".to_owned(),
                cmd: "nvim --embed".to_owned(),
            }),
            Action::ErrorPage(ErrorPageOp::Show),
        ]
    );
    assert!(!s.is_nvim_initialized());
    assert_eq!(s.state.gtk_draw(), drawn(Picture::Nothing));
    assert!(s.state.init_nvim(80, 24).is_none());
}

#[test]
fn init_error_is_shown() {
    let mut s = shell(None);
    s.state.init_nvim(80, 24);
    assert_eq!(
        s.state.show_nvim_init_error("reason".to_owned()).actions,
        vec![
            Action::ErrorPage(ErrorPageOp::InitError { source: "reason".to_owned() }),
            Action::ErrorPage(ErrorPageOp::Show),
        ]
    );
    assert_eq!(s.state.gtk_draw(), drawn(Picture::Nothing));
}

#[test]
fn initialized_shell_measures_its_grid_again() {
    let mut s = shell(None);
    s.state.init_nvim(80, 24);
    assert_eq!(
        s.state.set_nvim_initialized().actions,
        vec![
            Action::Client(ClientOp::AsyncToSync),
            Action::Ask(Question::GridSize),
            Action::Cursor(CursorOp::Start),
        ]
    );
    assert!(s.is_nvim_initialized());
}

#[test]
fn size_after_start_is_not_forgotten() {
    let mut s = shell(None);
    s.state.init_nvim(80, 24);
    let start = Action::Timer(TimerOp::Start { delay_ms: 200 });
    assert_eq!(s.state.try_nvim_resize(100, 30).actions, vec![start]);
    s.state.set_nvim_initialized();
    assert_eq!(s.state.try_nvim_resize(100, 30).actions, vec![]);
    assert_eq!(
        s.state.resize_timer_fired(true).actions,
        vec![Action::Nvim(NvimRequest::TryResize { columns: 100, rows: 30 })]
    );
}

#[test]
fn size_whose_timer_has_fired_is_asked_for_after_the_start() {
    let mut s = shell(None);
    s.state.init_nvim(80, 24);
    s.state.try_nvim_resize(100, 30);
    assert_eq!(s.state.resize_timer_fired(false).actions, vec![]);
    assert_eq!(s.state.try_nvim_resize(100, 30).actions, vec![]);
    s.state.set_nvim_initialized();
    let start = Action::Timer(TimerOp::Start { delay_ms: 200 });
    assert_eq!(s.state.try_nvim_resize(100, 30).actions, vec![start]);
    assert_eq!(
        s.state.resize_timer_fired(true).actions,
        vec![Action::Nvim(NvimRequest::TryResize { columns: 100, rows: 30 })]
    );
    assert_eq!(s.state.try_nvim_resize(100, 30).actions, vec![]);
}

#[test]
fn size_of_the_grid_is_not_asked_for_after_the_start() {
    let mut s = shell(None);
    s.state.init_nvim(80, 24);
    s.state.set_nvim_initialized();
    assert_eq!(s.state.try_nvim_resize(80, 24).actions, vec![]);
}

#[test]
fn events_of_a_start_come_in_order() {
    let failed = InitEvent::StartFailed { source: "s".to_owned(), cmd: "c".to_owned() };
    let lost = InitEvent::AttachFailed { source: "s".to_owned() };
    let mut init = NvimInit::new(options(), 80, 24);
    assert!(init.expects(&InitEvent::Begin));
    assert!(!init.expects(&InitEvent::Started));
    init.init_nvim_async(InitEvent::Begin);
    assert!(init.expects(&InitEvent::Started));
    assert!(init.expects(&failed));
    assert!(!init.expects(&InitEvent::Begin));
    assert!(!init.expects(&InitEvent::Attached));
    init.init_nvim_async(InitEvent::Started);
    assert!(init.expects(&InitEvent::Attached));
    assert!(init.expects(&lost));
    assert!(!init.expects(&failed));
    init.init_nvim_async(lost);
    assert!(!init.expects(&InitEvent::Begin));
    assert!(!init.expects(&InitEvent::Attached));
}

#[test]
fn initializing_lasts_until_the_start_is_over() {
    let mut s = shell(None);
    assert!(!s.state.is_nvim_initializing());
    s.state.init_nvim(80, 24);
    assert!(s.state.is_nvim_initializing());
    s.state.set_nvim_initialized();
    assert!(!s.state.is_nvim_initializing());
}

#[test]
fn callbacks_are_called_as_registered() {
    let mut s = shell(None);
    assert_eq!(s.state.nvim_started().actions, vec![]);
    s.set_nvim_started_cb(Some(3));
    assert_eq!(s.state.nvim_started().actions, vec![Action::Callback(3)]);
    s.set_nvim_started_cb(None);
    assert_eq!(s.state.nvim_started().actions, vec![]);

    assert_eq!(s.state.session_ended().actions, vec![Action::Client(ClientOp::Clear)]);
    s.set_detach_cb(Some(4));
    s.set_detach_cb(Some(5));
    assert_eq!(
        s.state.session_ended().actions,
        vec![Action::Client(ClientOp::Clear), Action::Callback(5)]
    );
}

#[test]
fn pictures_follow_the_start() {
    let mut s = shell(None);
    assert_eq!(s.state.gtk_draw(), drawn(Picture::Nothing));
    s.state.init_nvim(80, 24);
    assert_eq!(s.state.gtk_draw(), drawn(Picture::Initializing));
    s.state.set_nvim_initialized();
    assert_eq!(s.state.gtk_draw(), drawn(Picture::Direct));
    s.state.session_ended();
    assert_eq!(s.state.gtk_draw(), drawn(Picture::Nothing));
}

#[test]
fn back_buffer_stays_for_every_draw() {
    let mut s = shell(Some("1"));
    s.state.resize_surface(10, 10);
    s.state.init_nvim(80, 24);
    s.state.set_nvim_initialized();
    s.state.on_mouse(false);
    assert!(s.state.has_surface());
    assert_eq!(s.state.gtk_draw(), drawn(Picture::DoubleBuffer));
}
