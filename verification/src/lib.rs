//! Fast-start optimisation of video container files, as decisions.
//!
//! A run takes one target, a file or a directory. Each candidate file is
//! handed to an external tool that re-multiplexes it into a staging file
//! beside it, with the metadata index at the front; the staging file then
//! takes the place of the original. One file that fails does not stop a
//! directory run.
//!
//! This library holds every decision of such a run and performs none of its
//! outside work. A [`driver::Run`] names the next piece of outside work as
//! an [`exchange::Action`]: inspect the target, scan a directory, probe a
//! file, run the tool, remove the original, rename the staging file, exit.
//! The caller performs it and reports what happened as an
//! [`exchange::Event`]; the run takes that in and names the next action,
//! until the action is to exit.
//!
//! The modules, leaves first:
//!
//! - [`paths`]: which paths are candidates, and where a staging file lies;
//! - [`exchange`]: the actions and events, and the exit statuses;
//! - [`transcoder`]: what the tool is asked to do, and how its exit is read;
//! - [`replacer`]: the two steps that put a staging file in place;
//! - [`optimizer`]: the work on one file, from probe to replacement;
//! - [`driver`]: the run over a target, its summary and its exit status;
//! - [`laws`]: what holds of every run;
//! - [`namespace`]: a model of the files, and what a run does to them.

pub mod driver;
pub mod exchange;
pub mod laws;
pub mod namespace;
pub mod optimizer;
pub mod paths;
pub mod replacer;
pub mod transcoder;
