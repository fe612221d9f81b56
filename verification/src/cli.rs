//! The arguments of each subcommand, once the command line has been read.

use vstd::prelude::*;

verus! {

/// A command line, read.
#[derive(Debug)]
pub struct Cli {
    pub command: Commands,
}

/// The subcommands.
#[derive(Debug)]
pub enum Commands {
    Ls(LsArgs),
    New(NewArgs),
    Gen(GenArgs),
    Edit(EditArgs),
    Rm(RmArgs),
    Cp(CpArgs),
}

/// List the specs of the store.
#[derive(Debug)]
pub struct LsArgs {
    /// List the default variables of each spec too.
    pub list_vars: bool,
}

/// Create a new spec with some example content.
#[derive(Debug)]
pub struct NewArgs {
    /// The name of the new spec.
    pub name: String,
    /// Open the spec in the editor once it is created.
    pub edit: bool,
}

/// Generate the templates of a spec.
#[derive(Debug)]
pub struct GenArgs {
    /// The spec's name. Either this or `spec_file` is given, never both.
    pub name: Option<String>,
    /// Options, as key and value in turn.
    pub options: Vec<String>,
    /// The directory to generate in, if not the current one.
    pub workdir: Option<String>,
    /// A spec file to read in place of a spec of the store.
    pub spec_file: Option<String>,
}

/// Open a spec in the editor.
#[derive(Debug)]
pub struct EditArgs {
    /// The spec's name.
    pub name: String,
}

/// Delete one or more specs.
#[derive(Debug)]
pub struct RmArgs {
    pub to_delete: Vec<String>,
    /// Delete without asking.
    pub skip_prompt: bool,
}

/// Copy a spec.
#[derive(Debug)]
pub struct CpArgs {
    /// The spec to copy.
    pub source: String,
    /// The name of the new spec.
    pub dest: String,
    /// Overwrite without asking.
    pub skip_prompt: bool,
}

} // verus!
