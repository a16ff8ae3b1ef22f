//! A configuration-driven harness for black-box command tests.
//!
//! A suite names commands, what to feed them and what to expect of them.
//! The library resolves the suite's templates, plans and steers a run,
//! judges each command's output and keeps the log of runs for an
//! interactive session. It starts no process and draws nothing itself: it
//! tells its driver what to do and takes in what came of it.
//!
//! - [`config`]: the description of a suite.
//! - [`template`]: conditional markup in commands and arguments.
//! - [`plan`]: the steps of a run and how a case is prepared and recorded.
//! - [`engine`]: a run, step by step.
//! - [`process`] and [`wait`]: the supervision of one command.
//! - [`compare`] and [`diff`]: agreement of outputs, and their differences.
//! - [`outcome`]: what is recorded of each case.
//! - [`error`]: what ends a run or a load.
//! - [`loading`]: which format a configuration is read in.
//! - [`app`], [`keys`] and [`notice`]: an interactive session.
//! - [`report`]: results put into words.
//! - [`text`]: searching in text.

pub mod app;
pub mod compare;
pub mod config;
pub mod diff;
pub mod engine;
pub mod error;
pub mod keys;
pub mod loading;
pub mod notice;
pub mod outcome;
pub mod plan;
pub mod process;
pub mod report;
pub mod template;
pub mod text;
pub mod wait;
