//! Decision logic of a daemon that dims the windows that do not hold the
//! input focus.
//!
//! The daemon merges three sources of events: the window manager, a control
//! socket, and a watcher of its configuration file. Everything that is decided
//! about them is decided here, on plain values; reading sockets, watching
//! files and talking to the window manager is left to the caller.
//!
//! - `config`: opacities and the configuration snapshot.
//! - `cmd`: the commands of the control plane and their names.
//! - `i3`: layout trees, the order in which they are walked, and the reports
//!   of the window manager.
//! - `command`: the text of the orders sent to the window manager.
//! - `daemon`: the daemon's state and what each event does to it.
//! - `ipc`: the wire format of commands, the setup of the control socket,
//!   and the errors of the control plane.
//! - `watch`: the watcher of the configuration file.

pub mod cmd;
pub mod command;
pub mod config;
pub mod daemon;
pub mod i3;
pub mod ipc;
pub mod watch;

pub use crate::cmd::Cmd;
