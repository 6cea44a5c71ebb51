//! The shell of a GTK front end for Neovim: what the window does about the events of the toolkit, of
//! neovim and of the timers.
//!
//! Nothing here touches a widget or a pipe. A handler takes what it has to know as plain values,
//! changes the state, and returns a script of actions for the caller to carry out.
//!
//! - [`shell`] and [`state`] hold the state and its handlers: [`state::redraw`] those for the redraw
//!   events of neovim, [`state::lifecycle`] those for its start and its end.
//! - [`mouse`] and [`window`] hold the handlers for the events of the drawing area.
//! - [`init`] says what to do, step by step, to start neovim.
//! - [`action`] has the actions, [`text`] builds the texts that are sent.
//! - [`options`], [`render_state`] and [`grid`] have the data.
//! - [`machine`] has the state and its transitions as mathematics, and [`laws`] what holds of them.
pub mod action;
pub mod grid;
pub mod init;
pub mod laws;
pub mod machine;
pub mod mouse;
pub mod options;
pub mod render_state;
pub mod shell;
pub mod state;
pub mod text;
pub mod window;
