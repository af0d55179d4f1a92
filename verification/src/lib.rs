//! Supervision of a single wallpaper renderer whose command line comes from a
//! `key=value` configuration file.
//!
//! The crate holds the decisions of the supervisor: how the configuration text
//! is read, which process may be held at which moment, and what has to happen
//! after each notification. Everything that touches the operating system is
//! asked for through [`Action`](crate::event::Action) values and answered with
//! [`Event`](crate::event::Event) values, so that a small program around the
//! crate can do the work and the crate can be verified.
//!
//! - [`config`] reads the configuration text.
//! - [`paths`] tells where the configuration file lies.
//! - [`process`] keeps the one slot for the renderer and builds its command
//!   line.
//! - [`event`] and [`error`] hold what goes in and out of the supervisor.
//! - [`model`] is the supervisor as a state machine over mathematical values,
//!   and [`trace`] proves what holds of all its runs.
//! - [`supervisor`] is the supervisor itself, proved to be that machine.

pub mod config;
pub mod error;
pub mod event;
pub mod model;
pub mod paths;
pub mod process;
pub mod supervisor;
pub mod text;
pub mod trace;
