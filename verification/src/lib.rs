//! Mirroring files from a remote host into a local directory: everything
//! about such a transfer that can be decided without touching the network
//! or the disk.
//!
//! A caller opens the sessions, runs the commands and writes the files. This
//! library tells it what to do next and keeps the books:
//!
//! - [`run`] turns the command line into a job, with [`utils`] finding the
//!   private key;
//! - [`transfer`] leads a whole transfer from the query of the source to the
//!   result of its last task;
//! - [`listing`] reads the listings of files, and [`plan`] turns them into
//!   tasks, each with its place in the destination;
//! - [`retrieve`] leads the retrieval of one file, under the conflict mode
//!   of [`options`];
//! - [`utils`] also holds the bounded retry that opening a session goes
//!   through.
//!
//! The contracts of the functions are proved with Verus. What is taken on
//! trust says so where it stands: the calls into `std::path` in [`paths`],
//! the call that finds the home directory in [`utils`], and `String::push`
//! in [`text`].

pub mod cli;
pub mod error;
pub mod listing;
pub mod options;
pub mod paths;
pub mod plan;
pub mod retrieve;
pub mod run;
pub mod task;
pub mod text;
pub mod transfer;
pub mod utils;
