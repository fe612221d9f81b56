//! Deleting specs, one by one, each on its own: a spec that cannot be
//! deleted is reported and the others are still tried.

use vstd::prelude::*;
use crate::cli::RmArgs;
use crate::io::{Line, Stream};

verus! {

/// What to do first with a spec that is to be deleted.
#[derive(Debug, PartialEq)]
pub enum Step {
    /// Put this question, and go by the answer.
    Ask { question: String },
    /// Delete it.
    Delete,
}

/// What to do once the question has been put.
#[derive(Debug, PartialEq)]
pub enum Next {
    /// Delete the spec.
    Delete,
    /// Leave the spec and say this.
    Say { line: Line },
}

/// The question before a spec is deleted.
pub open spec fn removal_question(name: Seq<char>) -> Seq<char> {
    "Remove "@ + name
}

/// The first step for each spec that is to be deleted: the question, unless
/// the user has answered it for all of them beforehand.
pub fn rm(args: &RmArgs, name: &str) -> (step: Step)
    ensures
        args.skip_prompt ==> step == Step::Delete,
        !args.skip_prompt ==> (step matches Step::Ask { question } && question@ == removal_question(name@)),
{
    if args.skip_prompt {
        Step::Delete
    } else {
        let mut question = String::from_str("Remove ");
        question.append(name);
        Step::Ask { question }
    }
}

/// What is said where the user keeps the spec `name`.
pub open spec fn skipping_text(name: Seq<char>) -> Seq<char> {
    "Skipping "@ + name
}

/// What is said where asking the question failed.
pub open spec fn prompt_failure_text(problem: Seq<char>) -> Seq<char> {
    "Unexpected error handling prompt: "@ + problem
}

/// Goes by the answer to the question, which is `Ok` with the answer or `Err`
/// with what went wrong while asking: the spec is deleted on a yes, left
/// with a word on a no, and left with the error where asking failed.
pub fn remove_with_prompt(name: &str, answer: Result<bool, String>) -> (next: Next)
    ensures
        answer == Ok::<bool, String>(true) ==> next == Next::Delete,
        answer == Ok::<bool, String>(false) ==> (next matches Next::Say { line }
            && line.stream == Stream::Stdout && line.text@ == skipping_text(name@)),
        answer is Err ==> (next matches Next::Say { line } && line.stream == Stream::Stderr
            && line.text@ == prompt_failure_text(answer->Err_0@)),
{
    match answer {
        Ok(true) => Next::Delete,
        Ok(false) => {
            let mut text = String::from_str("Skipping ");
            text.append(name);
            Next::Say { line: Line { stream: Stream::Stdout, text } }
        },
        Err(problem) => {
            let mut text = String::from_str("Unexpected error handling prompt: ");
            text.append(problem.as_str());
            Next::Say { line: Line { stream: Stream::Stderr, text } }
        },
    }
}

/// What is said once the spec `name` is deleted.
pub open spec fn deleted_text(name: Seq<char>) -> Seq<char> {
    "Deleted "@ + name
}

/// What is said where a spec could not be deleted.
pub open spec fn deletion_failure_text(problem: Seq<char>) -> Seq<char> {
    "Failed to delete spec: "@ + problem
}

/// What is said of a deletion: that the spec is deleted, or why it is not.
/// A failure goes to the error stream and ends nothing.
pub fn remove(name: &str, deleted: Result<(), String>) -> (line: Line)
    ensures
        deleted is Ok ==> line.stream == Stream::Stdout && line.text@ == deleted_text(name@),
        deleted is Err ==> line.stream == Stream::Stderr && line.text@ == deletion_failure_text(
            deleted->Err_0@,
        ),
{
    match deleted {
        Ok(()) => {
            let mut text = String::from_str("Deleted ");
            text.append(name);
            Line { stream: Stream::Stdout, text }
        },
        Err(problem) => {
            let mut text = String::from_str("Failed to delete spec: ");
            text.append(problem.as_str());
            Line { stream: Stream::Stderr, text }
        },
    }
}

} // verus!
