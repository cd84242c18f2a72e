//! Launch planning for a terminal emulator that hosts a text editor as if it
//! were a GUI application.
//!
//! A launch goes through these steps, each a function of this library:
//! `backend::init` selects the terminal and resolves its executable;
//! `Terminal::conf_source` and `Terminal::find_default_confs` locate the
//! terminal's own configuration; `Terminal::create_conf_file` merges the
//! generated settings into it and gives the text of the configuration file
//! to write; `Functions::create_command` assembles the invocation; and after
//! the terminal has started, `backend::resize::post_start` decides how the
//! editor inside it is told the window size. Reading and writing files,
//! spawning the process and signalling are left to the caller.

pub mod backend;
pub mod config;
pub mod error;
pub mod host;
pub mod inifile;
pub mod text;
pub mod toml;
