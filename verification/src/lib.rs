//! Named specs of templated files: where their output may land, how their
//! variables are merged, and how each template is rendered.
//!
//! Nothing in this library reads or writes a file, a terminal or the
//! environment. Each operation is told what was found there and answers with
//! what is to be done.

pub mod cli;
pub mod cmd;
pub mod editor;
pub mod engine;
pub mod io;
pub mod path;
pub mod prompt;
pub mod specs;
pub mod value;
pub mod variables;

pub use cli::{Cli, Commands, CpArgs, EditArgs, GenArgs, LsArgs, NewArgs, RmArgs};
