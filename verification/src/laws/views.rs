//! The mathematical values of scripts, options and events leave nothing out.
use crate::action::{
    Action, ClientOp, CmdLineOp, CursorOp, DrawOp, ErrorPageOp, Failure, ImOp, ModelOp, MouseKey,
    NvimRequest, PopupOp, Question, Script, TimerOp,
};
use crate::init::{works, InitEvent, InitWork};
use crate::options::{optional_text, texts};
use crate::render_state::RenderState;
use std::time::Duration;
use vstd::prelude::*;

verus! {

/// A script stands for its actions, one by one and in their order.
pub proof fn law_scripts_stand_for_their_actions(script: Script, i: int)
    ensures
        script@.len() == script.actions@.len(),
        0 <= i < script@.len() ==> script@[i] == script.actions@[i]@,
{
}

/// An action stands for itself, with the characters of its texts.
pub proof fn law_actions_stand_for_themselves(
    request: NvimRequest<String>,
    model: ModelOp,
    cursor: CursorOp,
    im: ImOp,
    cmd_line: CmdLineOp<String>,
    popup: PopupOp,
    draw: DrawOp,
    question: Question,
    timer: TimerOp,
    client: ClientOp,
    page: ErrorPageOp<String>,
    key: MouseKey,
    number: usize,
    id: u64,
    text: String,
)
    ensures
        Action::<String>::Nvim(request)@ == Action::Nvim(request@),
        Action::<String>::Model(model)@ == Action::<Seq<char>>::Model(model),
        Action::<String>::Cursor(cursor)@ == Action::<Seq<char>>::Cursor(cursor),
        Action::<String>::Im(im)@ == Action::<Seq<char>>::Im(im),
        Action::<String>::CmdLine(cmd_line)@ == Action::CmdLine(cmd_line@),
        Action::<String>::Popup(popup)@ == Action::<Seq<char>>::Popup(popup),
        Action::<String>::Draw(draw)@ == Action::<Seq<char>>::Draw(draw),
        Action::<String>::Ask(question)@ == Action::<Seq<char>>::Ask(question),
        Action::<String>::Timer(timer)@ == Action::<Seq<char>>::Timer(timer),
        Action::<String>::Client(client)@ == Action::<Seq<char>>::Client(client),
        Action::<String>::ErrorPage(page)@ == Action::ErrorPage(page@),
        (Action::<String>::Mouse { key, times: number })@ == (Action::<Seq<char>>::Mouse {
            key,
            times: number,
        }),
        Action::<String>::FontFromRpc@ == Action::<Seq<char>>::FontFromRpc,
        Action::<String>::UpdateFont(text)@ == Action::UpdateFont(text@),
        (Action::<String>::UpdateMode { mode: text, idx: number })@ == (Action::UpdateMode {
            mode: text@,
            idx: number,
        }),
        Action::<String>::Callback(id)@ == Action::<Seq<char>>::Callback(id),
{
}

/// A request, a call on the command line and a call on the error page stand for themselves, with
/// the characters of their texts.
pub proof fn law_requests_stand_for_themselves(
    text: String,
    other: String,
    failure: Failure,
    one: u64,
    two: u64,
    shift: bool,
)
    ensures
        NvimRequest::<String>::Command(text)@ == NvimRequest::Command(text@),
        (NvimRequest::<String>::Input { keys: text, failure })@ == (NvimRequest::Input {
            keys: text@,
            failure,
        }),
        NvimRequest::<String>::InputAsync(text)@ == NvimRequest::InputAsync(text@),
        NvimRequest::<String>::ImInput(text)@ == NvimRequest::ImInput(text@),
        (NvimRequest::<String>::TryResize { columns: one, rows: two })@ == (NvimRequest::<
            Seq<char>,
        >::TryResize { columns: one, rows: two }),
        NvimRequest::<String>::Detach@ == NvimRequest::<Seq<char>>::Detach,
        NvimRequest::<String>::UpdateTheme@ == NvimRequest::<Seq<char>>::UpdateTheme,
        CmdLineOp::<String>::SetModeInfo@ == CmdLineOp::<Seq<char>>::SetModeInfo,
        CmdLineOp::<String>::HideLevel(one)@ == CmdLineOp::<Seq<char>>::HideLevel(one),
        CmdLineOp::<String>::BlockHide@ == CmdLineOp::<Seq<char>>::BlockHide,
        (CmdLineOp::<String>::Pos { pos: one, level: two })@ == (CmdLineOp::<Seq<char>>::Pos {
            pos: one,
            level: two,
        }),
        (CmdLineOp::<String>::SpecialChar { c: text, shift, level: one })@
            == (CmdLineOp::SpecialChar { c: text@, shift, level: one }),
        (ErrorPageOp::<String>::StartError { source: text, cmd: other })@
            == (ErrorPageOp::StartError { source: text@, cmd: other@ }),
        (ErrorPageOp::<String>::InitError { source: text })@ == (ErrorPageOp::InitError {
            source: text@,
        }),
        ErrorPageOp::<String>::Show@ == ErrorPageOp::<Seq<char>>::Show,
{
}

/// The events and the work of a start stand for themselves, with the characters of their texts.
pub proof fn law_the_work_of_a_start_stands_for_itself(
    text: String,
    other: String,
    path: Option<String>,
    paths: Vec<String>,
    timeout: Option<Duration>,
    columns: u64,
    rows: u64,
)
    ensures
        InitEvent::<String>::Begin@ is Begin,
        InitEvent::<String>::Started@ is Started,
        InitEvent::<String>::Attached@ is Attached,
        (InitEvent::<String>::StartFailed { source: text, cmd: other })@
            == (InitEvent::StartFailed { source: text@, cmd: other@ }),
        (InitEvent::<String>::AttachFailed { source: text })@ == (InitEvent::AttachFailed {
            source: text@,
        }),
        (InitWork::<String, Vec<String>>::Start { nvim_bin_path: path, timeout })@
            == (InitWork::<Seq<char>, Seq<Seq<char>>>::Start {
            nvim_bin_path: optional_text(path),
            timeout,
        }),
        InitWork::<String, Vec<String>>::HandOver@ is HandOver,
        InitWork::<String, Vec<String>>::WatchSession@ is WatchSession,
        (InitWork::<String, Vec<String>>::Attach { open_paths: paths, columns, rows })@
            == (InitWork::<Seq<char>, Seq<Seq<char>>>::Attach {
            open_paths: texts(paths@),
            columns,
            rows,
        }),
        (InitWork::<String, Vec<String>>::ShowStartError { source: text, cmd: other })@
            == (InitWork::<Seq<char>, Seq<Seq<char>>>::ShowStartError {
            source: text@,
            cmd: other@,
        }),
        (InitWork::<String, Vec<String>>::ShowInitError { source: text })@ == (InitWork::<
            Seq<char>,
            Seq<Seq<char>>,
        >::ShowInitError { source: text@ }),
        InitWork::<String, Vec<String>>::MarkInitialized@ is MarkInitialized,
{
}

/// Lists of texts and of work stand for their entries, one by one and in their order, and an
/// optional text for the text that it holds.
pub proof fn law_lists_stand_for_their_entries(
    list: Seq<String>,
    work: Seq<InitWork<String, Vec<String>>>,
    text: Option<String>,
    i: int,
)
    ensures
        texts(list).len() == list.len(),
        0 <= i < list.len() ==> texts(list)[i] == list[i]@,
        works(work).len() == work.len(),
        0 <= i < work.len() ==> works(work)[i] == work[i]@,
        text is None ==> optional_text(text) is None,
        text matches Some(s) ==> optional_text(text) == Some(s@),
{
}

/// What is drawn with stands for its font and its colours.
pub proof fn law_render_state_stands_for_itself(render_state: RenderState)
    ensures
        render_state@.font_desc == render_state.font_desc@,
        render_state@.color_model == render_state.color_model,
{
}

} // verus!
