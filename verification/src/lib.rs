//! The core of a desktop application that remuxes video files into MP4 files
//! with an `ffmpeg` binary that it finds, or installs, on the machine.
//!
//! The library touches nothing on the machine but the name of the home
//! directory. Where it has to know whether a file exists or whether a program
//! runs, the caller hands it a function that answers; where a program is to be
//! started, it says which, and the caller starts it and reports how it ended.
//!
//! - [`locator`] finds the binary: the first place, in order of preference,
//!   where it is present and runs.
//! - [`output`] names the file that a conversion writes, so that no file is
//!   replaced.
//! - [`command`] holds the commands that are run and reads their endings.
//! - [`install`] and [`download`] decide how a missing binary is installed.
//! - [`platform`] and [`path`] hold what differs between operating systems;
//!   [`capability`] and [`text`] hold what the other modules share.

pub mod capability;
pub mod command;
pub mod download;
pub mod install;
pub mod locator;
pub mod output;
pub mod path;
pub mod platform;
pub mod text;
