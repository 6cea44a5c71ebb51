//! The shell: the state of neovim's window and of the mouse over it.
use crate::action::{Action, NvimRequest, Script};
use crate::machine::{command_if, font_actions, Actions, NvimMode, StateView};
use crate::mouse::UiState;
use crate::options::ShellOptions;
use crate::state::State;
use crate::text::trimmed;
use vstd::prelude::*;

verus! {

/// The oldest neovim that the shell works with.
pub const MINIMUM_SUPPORTED_NVIM_VERSION: &'static str = "0.2.2";

/// The shell. `A` stands for the attributes of text.
#[derive(Debug)]
pub struct Shell<A> {
    pub state: State<A>,
    pub ui_state: UiState,
}

impl<A> Shell<A> {
    /// A shell whose neovim is not started. `double_buffer` is the value of the variable
    /// `NVIM_GTK_DOUBLE_BUFFER`, where it is set.
    pub fn new(options: ShellOptions, double_buffer: Option<&str>) -> (shell: Shell<A>)
        ensures
            shell.state@ == StateView::<A>::initial(
                options@,
                double_buffer matches Some(text) && trimmed(text@) == "1"@,
            ).attach_cursor(),
            shell.state@.inv(),
            shell.ui_state == (UiState { mouse_pressed: false }),
    {
        let mut state = State::new(options, double_buffer);
        state.attach_cursor();
        Shell { state, ui_state: UiState::new() }
    }

    pub fn is_nvim_initialized(&self) -> (initialized: bool)
        ensures
            initialized == (self.state@.nvim is Initialized),
    {
        self.state.is_nvim_initialized()
    }

    pub fn set_font_desc(&mut self, font_name: &str) -> (script: Script)
        ensures
            final(self).state@ == old(self).state@.set_font_desc(font_name@),
            final(self).ui_state == old(self).ui_state,
            script@ == font_actions(font_name@),
    {
        self.state.set_font_desc(font_name)
    }

    pub fn open_file(&self, path: &str, connected: bool) -> (script: Script)
        ensures
            script@ == command_if(connected, "e "@ + path@),
    {
        self.state.open_file(path, connected)
    }

    pub fn cd(&self, path: &str, connected: bool) -> (script: Script)
        ensures
            script@ == command_if(connected, "cd "@ + path@),
    {
        self.state.cd(path, connected)
    }

    /// Detaches the user interface from neovim.
    pub fn detach_ui(&self, connected: bool) -> (script: Script)
        ensures
            script@ == if connected {
                seq![Action::<Seq<char>>::Nvim(NvimRequest::Detach)]
            } else {
                Actions::empty()
            },
    {
        if connected {
            Script::one(Action::Nvim(NvimRequest::Detach))
        } else {
            Script::empty()
        }
    }

    /// Pastes the clipboard.
    pub fn edit_paste(&self, mode: NvimMode, connected: bool) -> (script: Script)
        ensures
            script@ == self.state@.edit_paste_actions("+"@, mode, connected),
    {
        self.state.edit_paste("+", mode, connected)
    }

    /// Saves all files that were changed.
    pub fn edit_save_all(&self, connected: bool) -> (script: Script)
        ensures
            script@ == command_if(connected, ":wa"@),
    {
        State::<A>::command(connected, ":wa".to_owned())
    }

    pub fn new_tab(&self, connected: bool) -> (script: Script)
        ensures
            script@ == command_if(connected, ":tabe"@),
    {
        State::<A>::command(connected, ":tabe".to_owned())
    }

    pub fn set_detach_cb(&mut self, cb: Option<u64>)
        ensures
            final(self).state@ == (StateView { detach_cb: cb, ..old(self).state@ }),
            final(self).ui_state == old(self).ui_state,
    {
        self.state.set_detach_cb(cb);
    }

    pub fn set_nvim_started_cb(&mut self, cb: Option<u64>)
        ensures
            final(self).state@ == (StateView { nvim_started_cb: cb, ..old(self).state@ }),
            final(self).ui_state == old(self).ui_state,
    {
        self.state.set_nvim_started_cb(cb);
    }

    pub fn set_nvim_command_cb(&mut self, cb: Option<u64>)
        ensures
            final(self).state@ == (StateView { command_cb: cb, ..old(self).state@ }),
            final(self).ui_state == old(self).ui_state,
    {
        self.state.set_nvim_command_cb(cb);
    }
}

} // verus!
