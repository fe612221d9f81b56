//! Launching the user's editor: which one, and what its exit means.

use vstd::prelude::*;

verus! {

/// Why a spec could not be edited.
#[derive(Clone, Copy, Debug, PartialEq, Eq, Structural)]
pub enum EditorError {
    /// No editor is configured.
    NotSet,
    /// The editor could not be launched.
    LaunchFailed,
    /// The editor ran and reported a failure.
    Failed,
}

/// What became of the launch of the editor.
#[derive(Clone, Copy, Debug, PartialEq, Eq, Structural)]
pub enum Launch {
    /// It could not be launched.
    NotLaunched,
    /// It ran, and exited with or without success.
    Exited { success: bool },
}

/// What is said where editing failed. `editor` is the editor that was to be run.
pub open spec fn editor_error_text(error: EditorError, editor: Seq<char>) -> Seq<char> {
    match error {
        EditorError::NotSet =>
            "EDITOR environment variable is not set. Please set this environment variable to the path of your preferred text editor."@,
        EditorError::LaunchFailed => "Failed to launch editor (editor: "@ + editor + ")"@,
        EditorError::Failed => "Editor exited with non-zero status"@,
    }
}

impl EditorError {
    /// Says why editing failed.
    pub fn message(&self, editor: &str) -> (text: String)
        ensures
            text@ == editor_error_text(*self, editor@),
    {
        match self {
            EditorError::NotSet => String::from_str(
                "EDITOR environment variable is not set. Please set this environment variable to the path of your preferred text editor.",
            ),
            EditorError::LaunchFailed => {
                let mut text = String::from_str("Failed to launch editor (editor: ");
                text.append(editor);
                text.append(")");
                text
            },
            EditorError::Failed => String::from_str("Editor exited with non-zero status"),
        }
    }
}

/// Picks the editor to run: the one that the environment names under
/// `EDITOR`. Without it nothing can be launched.
pub fn start(editor: Option<String>) -> (command: Result<String, EditorError>)
    ensures
        editor is Some ==> command is Ok && command->Ok_0@ == editor->0@,
        editor is None ==> command == Err::<String, EditorError>(EditorError::NotSet),
{
    match editor {
        Some(command) => Ok(command),
        None => Err(EditorError::NotSet),
    }
}

/// Reads the outcome of the launch: an editor that did not start, or exited
/// with a failure, is an error. What was written before stays as it is.
pub fn finish(launch: Launch) -> (done: Result<(), EditorError>)
    ensures
        done == match launch {
            Launch::NotLaunched => Err::<(), EditorError>(EditorError::LaunchFailed),
            Launch::Exited { success } => if success {
                Ok::<(), EditorError>(())
            } else {
                Err::<(), EditorError>(EditorError::Failed)
            },
        },
{
    match launch {
        Launch::NotLaunched => Err(EditorError::LaunchFailed),
        Launch::Exited { success } => if success {
            Ok(())
        } else {
            Err(EditorError::Failed)
        },
    }
}

} // verus!
